//! The typed surface: one function per piece of user-facing text.
use vstd::prelude::*;

use crate::catalog::{
    bundle_messages, float_stored, ftl_ids_unique, ftl_messages, ftl_parses, rendered, resolution_of,
    tag_parses, ArgView, ArgumentSet, Bundle, Catalog, CatalogError,
};
use crate::catalog_text::EN_US;
use crate::domain::{
    Error, OperationStatus, OperationStepDecision, RootsConfig, SortKey, StrictPath, Store,
};
use crate::size::{binary_size, size_display};

verus! {

pub const PATH: &'static str = "path";

pub const PATH_ACTION: &'static str = "path-action";

pub const PROCESSED_GAMES: &'static str = "processed-games";

pub const PROCESSED_SIZE: &'static str = "processed-size";

pub const TOTAL_GAMES: &'static str = "total-games";

pub const TOTAL_SIZE: &'static str = "total-size";

/// The languages that have a compiled-in catalog.
#[derive(Clone, Copy, Debug, PartialEq, Eq, Structural)]
pub enum Language {
    English,
}

impl Language {
    pub open spec fn spec_id(&self) -> Seq<char> {
        match self {
            Language::English => "en-US"@,
        }
    }

    /// The language tag.
    pub fn id(&self) -> (r: String)
        ensures
            r@ == self.spec_id(),
    {
        match self {
            Language::English => String::from_str("en-US"),
        }
    }

    /// The compiled-in templates of this language.
    pub fn templates(&self) -> (r: &'static str)
        ensures
            r@ == EN_US@,
    {
        match self {
            Language::English => EN_US,
        }
    }
}

/// `[text]`.
pub open spec fn bracketed(text: Seq<char>) -> Seq<char> {
    "["@ + text + "]"@
}

/// The parts, with `sep` between each two.
pub open spec fn joined(parts: Seq<Seq<char>>, sep: Seq<char>) -> Seq<char>
    decreases parts.len(),
{
    if parts.len() == 0 {
        Seq::empty()
    } else if parts.len() == 1 {
        parts[0]
    } else {
        joined(parts.drop_last(), sep) + sep + parts.last()
    }
}

pub open spec fn views(v: Seq<String>) -> Seq<Seq<char>> {
    v.map_values(|s: String| s@)
}

/// Each name as an indented bullet line.
pub open spec fn bullets(names: Seq<String>) -> Seq<Seq<char>> {
    names.map_values(|s: String| "  - "@ + s@)
}

/// Joins strings with a separator.
pub fn join(parts: &Vec<String>, sep: &str) -> (r: String)
    ensures
        r@ == joined(views(parts@), sep@),
{
    if parts.len() == 0 {
        return String::new();
    }
    let mut out = parts[0].clone();
    let mut i: usize = 1;
    while i < parts.len()
        invariant
            1 <= i <= parts.len(),
            out@ == joined(views(parts@).take(i as int), sep@),
        decreases parts.len() - i,
    {
        proof {
            let vs = views(parts@);
            assert(vs.take(i + 1).drop_last() =~= vs.take(i as int));
        }
        out = out.concat(sep).concat(parts[i].as_str());
        i = i + 1;
    }
    proof {
        let vs = views(parts@);
        assert(vs.take(parts.len() as int) =~= vs);
        if parts.len() == 1 {
            assert(vs.take(1)[0] == vs[0]);
        }
    }
    out
}

/// The path as the only argument.
pub open spec fn path_args(path: Seq<char>) -> Map<Seq<char>, ArgView> {
    Map::empty().insert(PATH@, ArgView::Text(path))
}

/// The message id for a store.
pub open spec fn store_id(store: Store) -> Seq<char> {
    match store {
        Store::Epic => "store-epic"@,
        Store::Gog => "store-gog"@,
        Store::GogGalaxy => "store-gog-galaxy"@,
        Store::Microsoft => "store-microsoft"@,
        Store::Origin => "store-origin"@,
        Store::Prime => "store-prime"@,
        Store::Steam => "store-steam"@,
        Store::Uplay => "store-uplay"@,
        Store::OtherHome => "store-other-home"@,
        Store::OtherWine => "store-other-wine"@,
        Store::Other => "store-other"@,
    }
}

/// The message id for a sort key.
pub open spec fn sort_key_id(key: SortKey) -> Seq<char> {
    match key {
        SortKey::Name => "sort-name"@,
        SortKey::Size => "sort-size"@,
    }
}

/// The phrasing of a backup confirmation: create, recreate or merge.
pub open spec fn path_action(target_exists: bool, merge: bool) -> Seq<char> {
    if !target_exists {
        "create"@
    } else if !merge {
        "recreate"@
    } else {
        "merge"@
    }
}

/// Renders user-facing text from a loaded catalog.
pub struct Translator {
    catalog: Catalog,
    windows: bool,
}

impl Translator {
    pub closed spec fn bundle(&self) -> Bundle {
        self.catalog.bundle()
    }

    /// Whether the text is for Windows, which gets extra advice in places.
    pub closed spec fn on_windows(&self) -> bool {
        self.windows
    }

    /// The text of request `id` with `args`.
    pub open spec fn text_with(&self, id: Seq<char>, args: Map<Seq<char>, ArgView>) -> Seq<char> {
        rendered(resolution_of(self.bundle(), id, args))
    }

    /// The text of request `id` without arguments.
    pub open spec fn text(&self, id: Seq<char>) -> Seq<char> {
        self.text_with(id, Map::empty())
    }

    /// A translator over an already loaded catalog.
    pub fn from_catalog(catalog: Catalog, windows: bool) -> (r: Translator)
        ensures
            r.bundle() == catalog.bundle(),
            r.on_windows() == windows,
    {
        Translator { catalog, windows }
    }

    /// A translator over the compiled-in catalog of `language`.
    pub fn new(language: Language, windows: bool) -> (r: Result<Translator, CatalogError>)
        ensures
            r is Ok <==> (tag_parses(language.spec_id()) && ftl_parses(EN_US@) && ftl_ids_unique(
                EN_US@,
            )),
            r == Err::<Translator, CatalogError>(CatalogError::InvalidLocale) <==> !tag_parses(
                language.spec_id(),
            ),
            r == Err::<Translator, CatalogError>(CatalogError::InvalidSource) <==> (tag_parses(
                language.spec_id(),
            ) && !ftl_parses(EN_US@)),
            r == Err::<Translator, CatalogError>(CatalogError::DuplicateId) <==> (tag_parses(
                language.spec_id(),
            ) && ftl_parses(EN_US@) && !ftl_ids_unique(EN_US@)),
            r matches Ok(t) ==> bundle_messages(t.bundle()) == ftl_messages(EN_US@) && t.on_windows()
                == windows,
    {
        let locale = language.id();
        match Catalog::load(locale.as_str(), language.templates()) {
            Ok(catalog) => Ok(Translator { catalog, windows }),
            Err(e) => Err(e),
        }
    }

    fn translate(&self, id: &str) -> (r: String)
        ensures
            r@ == self.text(id@),
    {
        self.catalog.translate(id)
    }

    fn translate_args(&self, id: &str, args: &ArgumentSet) -> (r: String)
        ensures
            r@ == self.text_with(id@, args.view()),
    {
        self.catalog.translate_args(id, args)
    }

    fn translate_path(&self, id: &str, path: &StrictPath) -> (r: String)
        ensures
            r@ == self.text_with(id@, path_args(path.view())),
    {
        let rendered_path = path.render();
        let args = ArgumentSet::new().with_text(PATH, rendered_path.as_str());
        self.translate_args(id, &args)
    }

    pub open spec fn spec_window_title(&self, version: Seq<char>, variant: Option<Seq<char>>) -> Seq<
        char,
    > {
        match variant {
            Some(v) => self.text("ludusavi"@) + " v"@ + version + " ("@ + v + ")"@,
            None => self.text("ludusavi"@) + " v"@ + version,
        }
    }

    /// The window title: the application's name, its version, and the build
    /// variant if there is one.
    pub fn window_title(&self, version: &str, variant: Option<&str>) -> (r: String)
        ensures
            r@ == self.spec_window_title(
                version@,
                match variant {
                    Some(v) => Some(v@),
                    None => None,
                },
            ),
    {
        let name = self.translate("ludusavi");
        let base = name.concat(" v").concat(version);
        match variant {
            Some(v) => base.concat(" (").concat(v).concat(")"),
            None => base,
        }
    }

    pub open spec fn spec_unrecognized_games(&self, games: Seq<String>) -> Seq<char> {
        self.text("cli-unrecognized-games"@) + "\n"@ + joined(bullets(games), "\n"@)
    }

    /// A header line followed by one bullet line per game.
    pub fn cli_unrecognized_games(&self, games: &[String]) -> (r: String)
        ensures
            r@ == self.spec_unrecognized_games(games@),
    {
        let prefix = self.translate("cli-unrecognized-games");
        let mut lines: Vec<String> = Vec::new();
        let mut i: usize = 0;
        while i < games.len()
            invariant
                i <= games@.len(),
                views(lines@) == bullets(games@).take(i as int),
            decreases games.len() - i,
        {
            let line = String::from_str("  - ").concat(games[i].as_str());
            let ghost prev = lines@;
            let ghost line_view = line@;
            assert(line_view == "  - "@ + games@[i as int]@);
            lines.push(line);
            proof {
                assert(views(lines@) =~= views(prev).push(line_view));
                assert(bullets(games@).take(i + 1) =~= bullets(games@).take(i as int).push(
                    line_view,
                ));
            }
            i = i + 1;
        }
        proof {
            assert(bullets(games@).take(games@.len() as int) =~= bullets(games@));
        }
        let body = join(&lines, "\n");
        prefix.concat("\n").concat(body.as_str())
    }

    pub open spec fn spec_unable_to_request_confirmation(&self) -> Seq<char> {
        self.text("cli-unable-to-request-confirmation"@) + " "@ + if self.on_windows() {
            self.text("cli-unable-to-request-confirmation.winpty-workaround"@)
        } else {
            Seq::empty()
        }
    }

    /// Why no confirmation could be asked for; on Windows with a hint on
    /// terminal emulators.
    pub fn cli_unable_to_request_confirmation(&self) -> (r: String)
        ensures
            r@ == self.spec_unable_to_request_confirmation(),
    {
        let extra_note = if self.windows {
            self.translate("cli-unable-to-request-confirmation.winpty-workaround")
        } else {
            String::new()
        };
        self.translate("cli-unable-to-request-confirmation").concat(" ").concat(
            extra_note.as_str(),
        )
    }

    fn label(&self, text: &str) -> (r: String)
        ensures
            r@ == bracketed(text@),
    {
        String::from_str("[").concat(text).concat("]")
    }

    pub fn some_entries_failed(&self) -> (r: String)
        ensures
            r@ == self.text("some-entries-failed"@),
    {
        self.translate("some-entries-failed")
    }

    pub fn label_failed(&self) -> (r: String)
        ensures
            r@ == bracketed(self.text("badge-failed"@)),
    {
        self.label(self.badge_failed().as_str())
    }

    pub fn label_duplicates(&self) -> (r: String)
        ensures
            r@ == bracketed(self.text("badge-duplicates"@)),
    {
        self.label(self.badge_duplicates().as_str())
    }

    pub fn label_duplicated(&self) -> (r: String)
        ensures
            r@ == bracketed(self.text("badge-duplicated"@)),
    {
        self.label(self.badge_duplicated().as_str())
    }

    pub fn label_ignored(&self) -> (r: String)
        ensures
            r@ == bracketed(self.text("badge-ignored"@)),
    {
        self.label(self.badge_ignored().as_str())
    }

    pub fn badge_failed(&self) -> (r: String)
        ensures
            r@ == self.text("badge-failed"@),
    {
        self.translate("badge-failed")
    }

    pub fn badge_duplicates(&self) -> (r: String)
        ensures
            r@ == self.text("badge-duplicates"@),
    {
        self.translate("badge-duplicates")
    }

    pub fn badge_duplicated(&self) -> (r: String)
        ensures
            r@ == self.text("badge-duplicated"@),
    {
        self.translate("badge-duplicated")
    }

    pub fn badge_ignored(&self) -> (r: String)
        ensures
            r@ == self.text("badge-ignored"@),
    {
        self.translate("badge-ignored")
    }
}


impl Translator {
    pub fn backup_button(&self) -> (r: String)
        ensures
            r@ == self.text("button-backup"@),
    {
        self.translate("button-backup")
    }

    pub fn preview_button(&self) -> (r: String)
        ensures
            r@ == self.text("button-preview"@),
    {
        self.translate("button-preview")
    }

    pub fn restore_button(&self) -> (r: String)
        ensures
            r@ == self.text("button-restore"@),
    {
        self.translate("button-restore")
    }

    pub fn nav_backup_button(&self) -> (r: String)
        ensures
            r@ == self.text("button-nav-backup"@),
    {
        self.translate("button-nav-backup")
    }

    pub fn nav_restore_button(&self) -> (r: String)
        ensures
            r@ == self.text("button-nav-restore"@),
    {
        self.translate("button-nav-restore")
    }

    pub fn nav_custom_games_button(&self) -> (r: String)
        ensures
            r@ == self.text("button-nav-custom-games"@),
    {
        self.translate("button-nav-custom-games")
    }

    pub fn nav_other_button(&self) -> (r: String)
        ensures
            r@ == self.text("button-nav-other"@),
    {
        self.translate("button-nav-other")
    }

    pub fn add_root_button(&self) -> (r: String)
        ensures
            r@ == self.text("button-add-root"@),
    {
        self.translate("button-add-root")
    }

    pub fn find_roots_button(&self) -> (r: String)
        ensures
            r@ == self.text("button-find-roots"@),
    {
        self.translate("button-find-roots")
    }

    pub fn no_missing_roots(&self) -> (r: String)
        ensures
            r@ == self.text("no-missing-roots"@),
    {
        self.translate("no-missing-roots")
    }

    pub fn add_redirect_button(&self) -> (r: String)
        ensures
            r@ == self.text("button-add-redirect"@),
    {
        self.translate("button-add-redirect")
    }

    pub fn add_game_button(&self) -> (r: String)
        ensures
            r@ == self.text("button-add-game"@),
    {
        self.translate("button-add-game")
    }

    pub fn continue_button(&self) -> (r: String)
        ensures
            r@ == self.text("button-continue"@),
    {
        self.translate("button-continue")
    }

    pub fn cancel_button(&self) -> (r: String)
        ensures
            r@ == self.text("button-cancel"@),
    {
        self.translate("button-cancel")
    }

    pub fn cancelling_button(&self) -> (r: String)
        ensures
            r@ == self.text("button-cancelling"@),
    {
        self.translate("button-cancelling")
    }

    pub fn okay_button(&self) -> (r: String)
        ensures
            r@ == self.text("button-okay"@),
    {
        self.translate("button-okay")
    }

    pub fn select_all_button(&self) -> (r: String)
        ensures
            r@ == self.text("button-select-all"@),
    {
        self.translate("button-select-all")
    }

    pub fn deselect_all_button(&self) -> (r: String)
        ensures
            r@ == self.text("button-deselect-all"@),
    {
        self.translate("button-deselect-all")
    }

    pub fn enable_all_button(&self) -> (r: String)
        ensures
            r@ == self.text("button-enable-all"@),
    {
        self.translate("button-enable-all")
    }

    pub fn disable_all_button(&self) -> (r: String)
        ensures
            r@ == self.text("button-disable-all"@),
    {
        self.translate("button-disable-all")
    }

    pub fn no_roots_are_configured(&self) -> (r: String)
        ensures
            r@ == self.text("no-roots-are-configured"@),
    {
        self.translate("no-roots-are-configured")
    }

    pub fn manifest_cannot_be_updated(&self) -> (r: String)
        ensures
            r@ == self.text("manifest-cannot-be-updated"@),
    {
        self.translate("manifest-cannot-be-updated")
    }

    pub fn registry_issue(&self) -> (r: String)
        ensures
            r@ == self.text("registry-issue"@),
    {
        self.translate("registry-issue")
    }

    pub fn unable_to_browse_file_system(&self) -> (r: String)
        ensures
            r@ == self.text("unable-to-browse-file-system"@),
    {
        self.translate("unable-to-browse-file-system")
    }

    pub fn backup_target_label(&self) -> (r: String)
        ensures
            r@ == self.text("field-backup-target"@),
    {
        self.translate("field-backup-target")
    }

    pub fn backup_merge_label(&self) -> (r: String)
        ensures
            r@ == self.text("toggle-backup-merge"@),
    {
        self.translate("toggle-backup-merge")
    }

    pub fn restore_source_label(&self) -> (r: String)
        ensures
            r@ == self.text("field-restore-source"@),
    {
        self.translate("field-restore-source")
    }

    pub fn custom_files_label(&self) -> (r: String)
        ensures
            r@ == self.text("field-custom-files"@),
    {
        self.translate("field-custom-files")
    }

    pub fn custom_registry_label(&self) -> (r: String)
        ensures
            r@ == self.text("field-custom-registry"@),
    {
        self.translate("field-custom-registry")
    }

    pub fn search_label(&self) -> (r: String)
        ensures
            r@ == self.text("field-search"@),
    {
        self.translate("field-search")
    }

    pub fn sort_label(&self) -> (r: String)
        ensures
            r@ == self.text("field-sort"@),
    {
        self.translate("field-sort")
    }

    pub fn sort_reversed(&self) -> (r: String)
        ensures
            r@ == self.text("sort-reversed"@),
    {
        self.translate("sort-reversed")
    }

    pub fn redirect_source_placeholder(&self) -> (r: String)
        ensures
            r@ == self.text("field-redirect-source.placeholder"@),
    {
        self.translate("field-redirect-source.placeholder")
    }

    pub fn redirect_target_placeholder(&self) -> (r: String)
        ensures
            r@ == self.text("field-redirect-target.placeholder"@),
    {
        self.translate("field-redirect-target.placeholder")
    }

    pub fn custom_game_name_placeholder(&self) -> (r: String)
        ensures
            r@ == self.text("field-custom-game-name.placeholder"@),
    {
        self.translate("field-custom-game-name.placeholder")
    }

    pub fn search_game_name_placeholder(&self) -> (r: String)
        ensures
            r@ == self.text("field-search-game-name.placeholder"@),
    {
        self.translate("field-search-game-name.placeholder")
    }

    pub fn explanation_for_exclude_other_os_data(&self) -> (r: String)
        ensures
            r@ == self.text("explanation-for-exclude-other-os-data"@),
    {
        self.translate("explanation-for-exclude-other-os-data")
    }

    pub fn explanation_for_exclude_store_screenshots(&self) -> (r: String)
        ensures
            r@ == self.text("explanation-for-exclude-store-screenshots"@),
    {
        self.translate("explanation-for-exclude-store-screenshots")
    }

    pub fn ignored_items_label(&self) -> (r: String)
        ensures
            r@ == self.text("field-backup-excluded-items"@),
    {
        self.translate("field-backup-excluded-items")
    }

    pub fn full_retention(&self) -> (r: String)
        ensures
            r@ == self.text("field-retention-full"@),
    {
        self.translate("field-retention-full")
    }

    pub fn differential_retention(&self) -> (r: String)
        ensures
            r@ == self.text("field-retention-differential"@),
    {
        self.translate("field-retention-differential")
    }

    pub fn cli_backup_target_exists(&self, path: &StrictPath) -> (r: String)
        ensures
            r@ == self.text_with("cli-backup-target-already-exists"@, path_args(path.view())),
    {
        self.translate_path("cli-backup-target-already-exists", path)
    }

    pub fn cli_confirm_restoration(&self, path: &StrictPath) -> (r: String)
        ensures
            r@ == self.text_with("cli-confirm-restoration"@, path_args(path.view())),
    {
        self.translate_path("cli-confirm-restoration", path)
    }

    pub fn badge_redirected_from(&self, original: &StrictPath) -> (r: String)
        ensures
            r@ == self.text_with("badge-redirected-from"@, path_args(original.view())),
    {
        self.translate_path("badge-redirected-from", original)
    }

    pub fn cannot_prepare_backup_target(&self, target: &StrictPath) -> (r: String)
        ensures
            r@ == self.text_with("cannot-prepare-backup-target"@, path_args(target.view())),
    {
        self.translate_path("cannot-prepare-backup-target", target)
    }

    pub fn restoration_source_is_invalid(&self, source: &StrictPath) -> (r: String)
        ensures
            r@ == self.text_with("restoration-source-is-invalid"@, path_args(source.view())),
    {
        self.translate_path("restoration-source-is-invalid", source)
    }

    pub fn modal_confirm_restore(&self, source: &StrictPath) -> (r: String)
        ensures
            r@ == self.text_with("confirm-restore"@, path_args(source.view())),
    {
        self.translate_path("confirm-restore", source)
    }

    pub fn cli_game_line_item_redirected(&self, item: &str) -> (r: String)
        ensures
            r@ == self.text_with("cli-game-line-redirected-from"@, path_args(item@)),
    {
        let args = ArgumentSet::new().with_text(PATH, item);
        self.translate_args("cli-game-line-redirected-from", &args)
    }

    pub open spec fn spec_with_detail(&self, id: Seq<char>, sep: Seq<char>, detail: Seq<char>) -> Seq<
        char,
    > {
        self.text(id) + sep + detail
    }

    pub fn config_is_invalid(&self, why: &str) -> (r: String)
        ensures
            r@ == self.spec_with_detail("config-is-invalid"@, "\n"@, why@),
    {
        self.translate("config-is-invalid").concat("\n").concat(why)
    }

    pub fn manifest_is_invalid(&self, why: &str) -> (r: String)
        ensures
            r@ == self.spec_with_detail("manifest-is-invalid"@, "\n"@, why@),
    {
        self.translate("manifest-is-invalid").concat("\n").concat(why)
    }

    pub fn unable_to_open_dir(&self, path: &StrictPath) -> (r: String)
        ensures
            r@ == self.spec_with_detail("unable-to-open-directory"@, "\n\n"@, path.view()),
    {
        let rendered_path = path.render();
        self.translate("unable-to-open-directory").concat("\n\n").concat(rendered_path.as_str())
    }

    pub fn unable_to_open_url(&self, url: &str) -> (r: String)
        ensures
            r@ == self.spec_with_detail("unable-to-open-url"@, "\n\n"@, url@),
    {
        self.translate("unable-to-open-url").concat("\n\n").concat(url)
    }
}


impl Translator {
    pub open spec fn spec_header_labels(&self, decision: OperationStepDecision, duplicated: bool) -> Seq<
        Seq<char>,
    > {
        (if decision == OperationStepDecision::Ignored {
            seq![bracketed(self.text("badge-ignored"@))]
        } else {
            Seq::empty()
        }) + (if duplicated {
            seq![bracketed(self.text("badge-duplicates"@))]
        } else {
            Seq::empty()
        })
    }

    pub open spec fn spec_game_header(
        &self,
        name: Seq<char>,
        bytes: u64,
        decision: OperationStepDecision,
        duplicated: bool,
    ) -> Seq<char> {
        let labels = self.spec_header_labels(decision, duplicated);
        if labels.len() == 0 {
            name + " ["@ + size_display(bytes) + "]:"@
        } else {
            name + " ["@ + size_display(bytes) + "] "@ + joined(labels, " "@) + ":"@
        }
    }

    /// The heading of one game in command-line output: its name, its size,
    /// and labels for being ignored or having duplicates.
    pub fn cli_game_header(
        &self,
        name: &str,
        bytes: u64,
        decision: &OperationStepDecision,
        duplicated: bool,
    ) -> (r: String)
        ensures
            r@ == self.spec_game_header(name@, bytes, *decision, duplicated),
    {
        let mut labels: Vec<String> = Vec::new();
        if *decision == OperationStepDecision::Ignored {
            labels.push(self.label_ignored());
        }
        if duplicated {
            labels.push(self.label_duplicates());
        }
        assert(views(labels@) =~= self.spec_header_labels(*decision, duplicated));
        let size = self.adjusted_size(bytes);
        if labels.len() == 0 {
            String::from_str(name).concat(" [").concat(size.as_str()).concat("]:")
        } else {
            let joined_labels = join(&labels, " ");
            String::from_str(name).concat(" [").concat(size.as_str()).concat("] ").concat(
                joined_labels.as_str(),
            ).concat(":")
        }
    }

    pub open spec fn spec_line_parts(
        &self,
        item: Seq<char>,
        successful: bool,
        ignored: bool,
        duplicated: bool,
    ) -> Seq<Seq<char>> {
        (if !successful {
            seq![bracketed(self.text("badge-failed"@))]
        } else {
            Seq::empty()
        }) + (if ignored {
            seq![bracketed(self.text("badge-ignored"@))]
        } else {
            Seq::empty()
        }) + (if duplicated {
            seq![bracketed(self.text("badge-duplicated"@))]
        } else {
            Seq::empty()
        }) + seq![item]
    }

    /// One entry under a game in command-line output, with its labels.
    pub fn cli_game_line_item(&self, item: &str, successful: bool, ignored: bool, duplicated: bool) -> (r:
        String)
        ensures
            r@ == "  - "@ + joined(self.spec_line_parts(item@, successful, ignored, duplicated), " "@),
    {
        let mut parts: Vec<String> = Vec::new();
        if !successful {
            parts.push(self.label_failed());
        }
        if ignored {
            parts.push(self.label_ignored());
        }
        if duplicated {
            parts.push(self.label_duplicated());
        }
        parts.push(String::from_str(item));
        assert(views(parts@) =~= self.spec_line_parts(item@, successful, ignored, duplicated));
        let body = join(&parts, " ");
        String::from_str("  - ").concat(body.as_str())
    }

    /// A byte count in the largest fitting binary unit.
    pub fn adjusted_size(&self, bytes: u64) -> (r: String)
        ensures
            r@ == size_display(bytes),
    {
        binary_size(bytes)
    }

    pub open spec fn spec_games_args(status: OperationStatus) -> Map<Seq<char>, ArgView> {
        Map::empty().insert(TOTAL_GAMES@, ArgView::Number(float_stored(status.total_games as int))).insert(
            PROCESSED_GAMES@,
            ArgView::Number(float_stored(status.processed_games as int)),
        )
    }

    pub open spec fn spec_sizes_args(total: Seq<char>, processed: Seq<char>) -> Map<Seq<char>, ArgView> {
        Map::empty().insert(TOTAL_SIZE@, ArgView::Text(total)).insert(
            PROCESSED_SIZE@,
            ArgView::Text(processed),
        )
    }

    /// How many games were processed: all of them, or so many of the total.
    pub fn processed_games(&self, status: &OperationStatus) -> (r: String)
        ensures
            r@ == if status.processed_games == status.total_games {
                self.text_with("processed-games"@, Self::spec_games_args(*status))
            } else {
                self.text_with("processed-games-subset"@, Self::spec_games_args(*status))
            },
    {
        let args = ArgumentSet::new().with_number(TOTAL_GAMES, status.total_games as u64).with_number(
            PROCESSED_GAMES,
            status.processed_games as u64,
        );
        if status.processed_all_games() {
            self.translate_args("processed-games", &args)
        } else {
            self.translate_args("processed-games-subset", &args)
        }
    }

    /// How many bytes were processed: the total size, or so much of the total.
    pub fn processed_bytes(&self, status: &OperationStatus) -> (r: String)
        ensures
            r@ == if status.processed_bytes == status.total_bytes {
                size_display(status.total_bytes)
            } else {
                self.text_with(
                    "processed-size-subset"@,
                    Self::spec_sizes_args(
                        size_display(status.total_bytes),
                        size_display(status.processed_bytes),
                    ),
                )
            },
    {
        if status.processed_all_bytes() {
            self.adjusted_size(status.total_bytes)
        } else {
            let total = self.adjusted_size(status.total_bytes);
            let processed = self.adjusted_size(status.processed_bytes);
            let args = ArgumentSet::new().with_text(TOTAL_SIZE, total.as_str()).with_text(
                PROCESSED_SIZE,
                processed.as_str(),
            );
            self.translate_args("processed-size-subset", &args)
        }
    }

    /// So many of a total, as plain numbers.
    pub fn processed_subset(&self, total: usize, processed: usize) -> (r: String)
        ensures
            r@ == self.text_with(
                "processed-size-subset"@,
                Map::empty().insert(TOTAL_SIZE@, ArgView::Number(float_stored(total as int))).insert(
                    PROCESSED_SIZE@,
                    ArgView::Number(float_stored(processed as int)),
                ),
            ),
    {
        let args = ArgumentSet::new().with_number(TOTAL_SIZE, total as u64).with_number(
            PROCESSED_SIZE,
            processed as u64,
        );
        self.translate_args("processed-size-subset", &args)
    }

    pub open spec fn spec_summary_args(status: OperationStatus, location: Seq<char>) -> Map<
        Seq<char>,
        ArgView,
    > {
        path_args(location).insert(TOTAL_GAMES@, ArgView::Number(float_stored(status.total_games as int))).insert(
            PROCESSED_GAMES@,
            ArgView::Number(float_stored(status.processed_games as int)),
        ).insert(TOTAL_SIZE@, ArgView::Text(size_display(status.total_bytes))).insert(
            PROCESSED_SIZE@,
            ArgView::Text(size_display(status.processed_bytes)),
        )
    }

    /// The closing summary of a command-line operation.
    pub fn cli_summary(&self, status: &OperationStatus, location: &StrictPath) -> (r: String)
        ensures
            r@ == self.text_with(
                if status.processed_games == status.total_games && status.processed_bytes
                    == status.total_bytes {
                    "cli-summary.succeeded"@
                } else {
                    "cli-summary.failed"@
                },
                Self::spec_summary_args(*status, location.view()),
            ),
    {
        let rendered_location = location.render();
        let total_size = self.adjusted_size(status.total_bytes);
        let processed_size = self.adjusted_size(status.processed_bytes);
        let args = ArgumentSet::new().with_text(PATH, rendered_location.as_str()).with_number(
            TOTAL_GAMES,
            status.total_games as u64,
        ).with_number(PROCESSED_GAMES, status.processed_games as u64).with_text(
            TOTAL_SIZE,
            total_size.as_str(),
        ).with_text(PROCESSED_SIZE, processed_size.as_str());
        if status.processed_all() {
            self.translate_args("cli-summary.succeeded", &args)
        } else {
            self.translate_args("cli-summary.failed", &args)
        }
    }

    /// The name of a store.
    pub fn store(&self, store: &Store) -> (r: String)
        ensures
            r@ == self.text(store_id(*store)),
    {
        let id = match store {
            Store::Epic => "store-epic",
            Store::Gog => "store-gog",
            Store::GogGalaxy => "store-gog-galaxy",
            Store::Microsoft => "store-microsoft",
            Store::Origin => "store-origin",
            Store::Prime => "store-prime",
            Store::Steam => "store-steam",
            Store::Uplay => "store-uplay",
            Store::OtherHome => "store-other-home",
            Store::OtherWine => "store-other-wine",
            Store::Other => "store-other",
        };
        self.translate(id)
    }

    /// The name of a sort key.
    pub fn sort_key(&self, key: &SortKey) -> (r: String)
        ensures
            r@ == self.text(sort_key_id(*key)),
    {
        let id = match key {
            SortKey::Name => "sort-name",
            SortKey::Size => "sort-size",
        };
        self.translate(id)
    }

    pub open spec fn spec_root_lines(&self, roots: Seq<RootsConfig>) -> Seq<char>
        decreases roots.len(),
    {
        if roots.len() == 0 {
            Seq::empty()
        } else {
            self.spec_root_lines(roots.drop_last()) + "\n["@ + self.text(store_id(roots.last().store))
                + "] "@ + roots.last().path.view()
        }
    }

    /// Asks whether to add the roots found: a question, a blank line, and one
    /// line per root with its store.
    pub fn confirm_add_missing_roots(&self, roots: &[RootsConfig]) -> (r: String)
        ensures
            r@ == self.text("confirm-add-missing-roots"@) + "\n"@ + self.spec_root_lines(roots@),
    {
        let mut msg = self.translate("confirm-add-missing-roots").concat("\n");
        let ghost head = msg@;
        let mut i: usize = 0;
        while i < roots.len()
            invariant
                i <= roots@.len(),
                msg@ == head + self.spec_root_lines(roots@.take(i as int)),
            decreases roots.len() - i,
        {
            let root = &roots[i];
            let store = self.store(&root.store);
            let path = root.path.render();
            msg = msg.concat("\n[").concat(store.as_str()).concat("] ").concat(path.as_str());
            proof {
                assert(roots@.take(i + 1).drop_last() =~= roots@.take(i as int));
            }
            i = i + 1;
        }
        proof {
            assert(roots@.take(roots@.len() as int) =~= roots@);
        }
        msg
    }

    pub open spec fn spec_confirm_backup_args(path: Seq<char>, target_exists: bool, merge: bool) -> Map<
        Seq<char>,
        ArgView,
    > {
        path_args(path).insert(PATH_ACTION@, ArgView::Text(path_action(target_exists, merge)))
    }

    /// Asks to confirm a backup, phrased after what will happen to the target:
    /// created, recreated, or merged into.
    pub fn modal_confirm_backup(&self, target: &StrictPath, target_exists: bool, merge: bool) -> (r:
        String)
        ensures
            r@ == self.text_with(
                "confirm-backup"@,
                Self::spec_confirm_backup_args(target.view(), target_exists, merge),
            ),
    {
        let rendered_target = target.render();
        let action = if !target_exists {
            "create"
        } else if !merge {
            "recreate"
        } else {
            "merge"
        };
        let args = ArgumentSet::new().with_text(PATH, rendered_target.as_str()).with_text(
            PATH_ACTION,
            action,
        );
        self.translate_args("confirm-backup", &args)
    }

    /// The text of each error; every kind has its own message.
    pub open spec fn spec_error_text(&self, error: Error) -> Seq<char> {
        match error {
            Error::ConfigInvalid { why } => self.spec_with_detail("config-is-invalid"@, "\n"@, why@),
            Error::ManifestInvalid { why } => self.spec_with_detail(
                "manifest-is-invalid"@,
                "\n"@,
                why@,
            ),
            Error::ManifestCannotBeUpdated => self.text("manifest-cannot-be-updated"@),
            Error::CliBackupTargetExists { path } => self.text_with(
                "cli-backup-target-already-exists"@,
                path_args(path.view()),
            ),
            Error::CliUnrecognizedGames { games } => self.spec_unrecognized_games(games@),
            Error::CliUnableToRequestConfirmation => self.spec_unable_to_request_confirmation(),
            Error::SomeEntriesFailed => self.text("some-entries-failed"@),
            Error::CannotPrepareBackupTarget { path } => self.text_with(
                "cannot-prepare-backup-target"@,
                path_args(path.view()),
            ),
            Error::RestorationSourceInvalid { path } => self.text_with(
                "restoration-source-is-invalid"@,
                path_args(path.view()),
            ),
            Error::RegistryIssue => self.text("registry-issue"@),
            Error::UnableToBrowseFileSystem => self.text("unable-to-browse-file-system"@),
            Error::UnableToOpenDir(path) => self.spec_with_detail(
                "unable-to-open-directory"@,
                "\n\n"@,
                path.view(),
            ),
            Error::UnableToOpenUrl(url) => self.spec_with_detail("unable-to-open-url"@, "\n\n"@, url@),
        }
    }

    /// The user-facing text of an error.
    pub fn handle_error(&self, error: &Error) -> (r: String)
        ensures
            r@ == self.spec_error_text(*error),
    {
        match error {
            Error::ConfigInvalid { why } => self.config_is_invalid(why.as_str()),
            Error::ManifestInvalid { why } => self.manifest_is_invalid(why.as_str()),
            Error::ManifestCannotBeUpdated => self.manifest_cannot_be_updated(),
            Error::CliBackupTargetExists { path } => self.cli_backup_target_exists(path),
            Error::CliUnrecognizedGames { games } => self.cli_unrecognized_games(games.as_slice()),
            Error::CliUnableToRequestConfirmation => self.cli_unable_to_request_confirmation(),
            Error::SomeEntriesFailed => self.some_entries_failed(),
            Error::CannotPrepareBackupTarget { path } => self.cannot_prepare_backup_target(path),
            Error::RestorationSourceInvalid { path } => self.restoration_source_is_invalid(path),
            Error::RegistryIssue => self.registry_issue(),
            Error::UnableToBrowseFileSystem => self.unable_to_browse_file_system(),
            Error::UnableToOpenDir(path) => self.unable_to_open_dir(path),
            Error::UnableToOpenUrl(url) => self.unable_to_open_url(url.as_str()),
        }
    }
}

} // verus!
