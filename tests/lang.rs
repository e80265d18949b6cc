use ludusavi_lang::catalog::{split_id, ArgValue, ArgumentSet, Catalog, CatalogError, Resolution};
use ludusavi_lang::domain::{
    Error, OperationStatus, OperationStepDecision, RootsConfig, SortKey, StrictPath, Store,
};
use ludusavi_lang::size::{binary_size, unit_for, BinaryUnit};
use ludusavi_lang::text::normalize;
use ludusavi_lang::translator::{Language, Translator};

fn translator() -> Translator {
    Translator::new(Language::English, false).unwrap()
}

fn windows_translator() -> Translator {
    Translator::new(Language::English, true).unwrap()
}

fn catalog(source: &str) -> Catalog {
    Catalog::load("en-US", source).unwrap()
}

fn status(total_games: usize, processed_games: usize, total_bytes: u64, processed_bytes: u64) -> OperationStatus {
    OperationStatus { total_games, total_bytes, processed_games, processed_bytes }
}

#[test]
fn language_id_is_en_us() {
    assert_eq!(Language::English.id(), "en-US");
}

#[test]
fn normalize_collapses_spaces() {
    assert_eq!(normalize("a   b"), "a b");
    assert_eq!(normalize("a  b  c"), "a b c");
}

#[test]
fn normalize_joins_single_line_break() {
    assert_eq!(normalize("a\nb"), "a b");
    assert_eq!(normalize("a\rb"), "a b");
}

#[test]
fn normalize_collapses_paragraphs() {
    assert_eq!(normalize("a\n\n\nb"), "a\n\nb");
    assert_eq!(normalize("a\r\nb"), "a\n\nb");
}

#[test]
fn normalize_keeps_normal_paragraphs() {
    assert_eq!(normalize("a\n\nb"), "a\n\nb");
}

#[test]
fn normalize_leaves_spaces_without_word_before() {
    assert_eq!(normalize("   a"), "   a");
    assert_eq!(normalize("a\n   b"), "a\n   b");
    assert_eq!(normalize("a \nb"), "a \nb");
    assert_eq!(normalize("a\t\tb"), "a\t\tb");
    assert_eq!(normalize(""), "");
}

#[test]
fn normalize_joins_every_wrapped_line() {
    assert_eq!(normalize("a\nb\nc"), "a b c");
    assert_eq!(normalize("one\ntwo  three\n\n\n\nfour"), "one two three\n\nfour");
}

#[test]
fn normalize_is_idempotent_on_samples() {
    for x in ["a\nb\nc", "x  \n\n  y", "a\n\n\n\nb\nc  d", " \n \r\n a", "p\r\r\rq   r\ns"] {
        let once = normalize(x);
        assert_eq!(normalize(&once), once);
    }
}

#[test]
fn size_below_kibibyte_is_bytes() {
    let t = translator();
    assert_eq!(t.adjusted_size(1023), "1023 B");
    assert!(t.adjusted_size(1023).ends_with(" B"));
}

#[test]
fn size_at_kibibyte_switches_unit() {
    let t = translator();
    assert_eq!(t.adjusted_size(1024), "1.00 KiB");
}

#[test]
fn size_zero_is_zero_bytes() {
    assert_eq!(translator().adjusted_size(0), "0 B");
}

#[test]
fn size_larger_units() {
    assert_eq!(binary_size(1536), "1.50 KiB");
    assert_eq!(binary_size(1048576), "1.00 MiB");
    assert_eq!(binary_size(1073741824 * 3), "3.00 GiB");
    assert_eq!(unit_for(u64::MAX), BinaryUnit::EiB);
    assert_eq!(unit_for(1048575), BinaryUnit::KiB);
}

#[test]
fn registered_message_resolves_to_text() {
    let c = catalog("greeting = Hello there\n");
    let r = c.resolve("greeting", &ArgumentSet::new());
    assert!(matches!(r, Resolution::Text(_)));
    assert_eq!(r.render(), "Hello there");
    assert!(!translator().backup_button().starts_with("fluent-"));
}

#[test]
fn unknown_message_names_id() {
    let t = catalog("greeting = Hello\n");
    let r = t.translate("no-such-message");
    assert_eq!(r, "fluent-no-message=no-such-message");
    let dotted = t.translate("missing.attr");
    assert!(dotted.contains("missing.attr"));
}

#[test]
fn unknown_attribute_names_full_id() {
    let c = catalog("greeting = Hello\n    .title = Hi\n");
    let r = c.translate("greeting.nope");
    assert_eq!(r, "fluent-no-attr=greeting.nope");
    assert_eq!(c.translate("greeting.title"), "Hi");
}

#[test]
fn message_without_value_is_diagnostic() {
    let c = catalog("field =\n    .placeholder = Name\n");
    assert_eq!(c.translate("field"), "fluent-no-message-value=field");
    assert_eq!(c.translate("field.placeholder"), "Name");
}

#[test]
fn attribute_name_keeps_later_dots() {
    let c = catalog("greeting = Hello\n    .title = Hi\n");
    assert_eq!(c.translate("greeting.title.x"), "fluent-no-attr=greeting.title.x");
}

#[test]
fn cannot_lock_renders_sentinel() {
    assert_eq!(Resolution::CannotLock.render(), "fluent-cannot-lock");
}

#[test]
fn missing_argument_does_not_abort() {
    let c = catalog("hello = Hello { $who }!\n");
    let r = c.resolve("hello", &ArgumentSet::new());
    assert!(matches!(r, Resolution::Text(_)));
    let text = r.render();
    assert!(text.starts_with("Hello "));
    assert!(text.ends_with("!"));
}

#[test]
fn arguments_are_substituted() {
    let c = catalog("count = n is { $n }, name is { $name }\n");
    let args = ArgumentSet::new()
        .with("n", ArgValue::Signed(-3))
        .with_text("name", "x")
        .with_text("name", "y");
    assert_eq!(c.translate_args("count", &args), "n is -3, name is y");
}

#[test]
fn catalog_load_errors() {
    assert_eq!(Catalog::load("not a tag!!", "a = b\n").err(), Some(CatalogError::InvalidLocale));
    assert_eq!(Catalog::load("en-US", "this is not fluent").err(), Some(CatalogError::InvalidSource));
    assert_eq!(Catalog::load("en-US", "a = 1\na = 2\n").err(), Some(CatalogError::DuplicateId));
}

#[test]
fn buttons_and_labels() {
    let t = translator();
    assert_eq!(t.backup_button(), "Back up");
    assert_eq!(t.cancelling_button(), "Cancelling...");
    assert_eq!(t.label_failed(), "[FAILED]");
    assert_eq!(t.label_duplicates(), "[DUPLICATES]");
    assert_eq!(t.badge_ignored(), "IGNORED");
    assert_eq!(t.redirect_source_placeholder(), "Source (original location)");
    assert_eq!(t.search_game_name_placeholder(), "Name");
    assert_eq!(t.store(&Store::GogGalaxy), "GOG Galaxy");
    assert_eq!(t.store(&Store::OtherWine), "Wine prefix");
    assert_eq!(t.sort_key(&SortKey::Size), "Size");
    assert_eq!(t.sort_reversed(), "Reversed");
}

#[test]
fn wrapped_catalog_lines_are_joined() {
    let t = translator();
    assert_eq!(
        t.manifest_cannot_be_updated(),
        "Error: Unable to check for an update to the manifest file. Is your Internet connection down?"
    );
    assert_eq!(
        t.some_entries_failed(),
        "Some entries failed to process; look for FAILED in the output for details. Double check whether you can access those files or whether their paths are very long."
    );
}

#[test]
fn games_all_processed() {
    let t = translator();
    assert_eq!(t.processed_games(&status(5, 5, 0, 0)), "5 games");
    assert_eq!(t.processed_games(&status(1, 1, 0, 0)), "1 game");
}

#[test]
fn games_subset_processed() {
    let t = translator();
    let text = t.processed_games(&status(5, 3, 0, 0));
    assert_eq!(text, "3 of 5 games");
    assert!(text.contains('3') && text.contains('5'));
}

#[test]
fn bytes_all_and_subset() {
    let t = translator();
    assert_eq!(t.processed_bytes(&status(0, 0, 2048, 2048)), "2.00 KiB");
    assert_eq!(t.processed_bytes(&status(0, 0, 2048, 1024)), "1.00 KiB of 2.00 KiB");
    assert_eq!(t.processed_subset(10, 4), "4 of 10");
}

#[test]
fn summary_phrasing() {
    let t = translator();
    let place = StrictPath::new("/backup");
    assert_eq!(t.cli_summary(&status(5, 5, 2048, 2048), &place), "Overall: 5 games, 2.00 KiB, in /backup");
    assert_eq!(
        t.cli_summary(&status(5, 4, 2048, 1024), &place),
        "Overall: 4 of 5 games, 1.00 KiB of 2.00 KiB, in /backup"
    );
}

#[test]
fn confirm_backup_phrasings() {
    let t = translator();
    let p = StrictPath::new("/tmp/target");
    let create = t.modal_confirm_backup(&p, false, false);
    let create_merge = t.modal_confirm_backup(&p, false, true);
    let recreate = t.modal_confirm_backup(&p, true, false);
    let merge = t.modal_confirm_backup(&p, true, true);
    assert!(create.contains("will be created"));
    assert_eq!(create, create_merge);
    assert!(recreate.contains("deleted and recreated"));
    assert!(merge.contains("merged into"));
    assert_ne!(create, recreate);
    assert_ne!(recreate, merge);
    assert_ne!(create, merge);
    for text in [&create, &recreate, &merge] {
        assert!(text.ends_with("/tmp/target"));
    }
}

#[test]
fn confirm_restore_names_source() {
    let t = translator();
    let text = t.modal_confirm_restore(&StrictPath::new("/src"));
    assert!(text.starts_with("Are you sure you want to proceed with the restoration? This will overwrite"));
    assert!(text.ends_with("/src"));
}

#[test]
fn unrecognized_games_list() {
    let t = translator();
    let games = vec!["A".to_string(), "B".to_string()];
    assert_eq!(t.cli_unrecognized_games(&games), "No info for these games:\n  - A\n  - B");
    assert_eq!(t.cli_unrecognized_games(&[]), "No info for these games:\n");
}

#[test]
fn unable_to_request_confirmation_per_platform() {
    assert_eq!(translator().cli_unable_to_request_confirmation(), "Unable to request confirmation. ");
    assert_eq!(
        windows_translator().cli_unable_to_request_confirmation(),
        "Unable to request confirmation. If you are using a Bash emulator (like Git Bash), try running winpty."
    );
}

#[test]
fn game_header_labels() {
    let t = translator();
    assert_eq!(t.cli_game_header("Game", 1024, &OperationStepDecision::Processed, false), "Game [1.00 KiB]:");
    assert_eq!(
        t.cli_game_header("Game", 10, &OperationStepDecision::Ignored, true),
        "Game [10 B] [IGNORED] [DUPLICATES]:"
    );
    assert_eq!(t.cli_game_header("Game", 10, &OperationStepDecision::Cancelled, true), "Game [10 B] [DUPLICATES]:");
}

#[test]
fn game_line_item_labels() {
    let t = translator();
    assert_eq!(t.cli_game_line_item("file", true, false, false), "  - file");
    assert_eq!(t.cli_game_line_item("file", false, true, true), "  - [FAILED] [IGNORED] [DUPLICATED] file");
    assert_eq!(t.cli_game_line_item_redirected("/old"), "Redirected from: /old");
    assert_eq!(t.badge_redirected_from(&StrictPath::new("/old")), "FROM: /old");
}

#[test]
fn missing_roots_confirmation() {
    let t = translator();
    let roots = vec![
        RootsConfig { path: StrictPath::new("/games"), store: Store::Steam },
        RootsConfig { path: StrictPath::new("/other"), store: Store::Other },
    ];
    assert_eq!(t.confirm_add_missing_roots(&roots), "Add these roots?\n\n[Steam] /games\n[Other] /other");
}

#[test]
fn errors_map_to_messages() {
    let t = translator();
    assert_eq!(
        t.handle_error(&Error::ConfigInvalid { why: "bad".to_string() }),
        "Error: The config file is invalid.\nbad"
    );
    assert_eq!(
        t.handle_error(&Error::UnableToOpenUrl("http://x".to_string())),
        "Error: Unable to open URL:\n\nhttp://x"
    );
    assert_eq!(
        t.handle_error(&Error::UnableToOpenDir(StrictPath::new("/d"))),
        "Error: Unable to open directory:\n\n/d"
    );
    assert_eq!(
        t.handle_error(&Error::CliBackupTargetExists { path: StrictPath::new("/x") }),
        "The backup target already exists ( /x ). Either choose a different --path or delete it with --force."
    );
    assert_eq!(
        t.handle_error(&Error::CannotPrepareBackupTarget { path: StrictPath::new("/x") }),
        "Error: Unable to prepare backup target (either creating or emptying the folder). If you have the folder open in your file browser, try closing it: /x"
    );
    assert_eq!(t.handle_error(&Error::RegistryIssue), "Error: Some registry entries were skipped.");
    let games = Error::CliUnrecognizedGames { games: vec!["G".to_string()] };
    assert_eq!(t.handle_error(&games), "No info for these games:\n  - G");
    assert_eq!(t.handle_error(&Error::SomeEntriesFailed), t.some_entries_failed());
}

#[test]
fn window_title_with_and_without_variant() {
    let t = translator();
    assert_eq!(t.window_title("1.0", None), "Ludusavi v1.0");
    assert_eq!(t.window_title("1.0", Some("portable")), "Ludusavi v1.0 (portable)");
}

#[test]
fn split_id_at_first_dot() {
    assert_eq!(split_id("msg"), ("msg", None));
    assert_eq!(split_id("msg.attr"), ("msg", Some("attr")));
    assert_eq!(split_id("msg.attr.more"), ("msg", Some("attr.more")));
    assert_eq!(split_id(".attr"), ("", Some("attr")));
}

#[test]
fn unit_choice_grows_with_size() {
    let counts = [0u64, 1, 1023, 1024, 1048575, 1048576, 1 << 40, 1 << 50, 1 << 60, u64::MAX];
    let units: Vec<BinaryUnit> = counts.iter().map(|c| unit_for(*c)).collect();
    assert_eq!(
        units,
        vec![
            BinaryUnit::B,
            BinaryUnit::B,
            BinaryUnit::B,
            BinaryUnit::KiB,
            BinaryUnit::KiB,
            BinaryUnit::MiB,
            BinaryUnit::TiB,
            BinaryUnit::PiB,
            BinaryUnit::EiB,
            BinaryUnit::EiB,
        ]
    );
}

#[test]
fn number_arguments_exact_up_to_two_pow_53() {
    let c = catalog("n = { $n }\n");
    let small = ArgumentSet::new().with_number("n", 1234);
    assert_eq!(c.translate_args("n", &small), "1234");
    let edge = ArgumentSet::new().with_number("n", 9007199254740992);
    assert_eq!(c.translate_args("n", &edge), "9007199254740992");
    let huge = ArgumentSet::new().with_number("n", u64::MAX);
    assert!(!c.translate_args("n", &huge).starts_with("fluent-"));
}

#[test]
fn catalog_loads_compiled_in_messages() {
    let t = translator();
    assert_eq!(t.ignored_items_label(), "Backup exclusions:");
    assert_eq!(t.sort_key(&SortKey::Name), "Name");
}
