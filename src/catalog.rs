//! The message catalog: a Fluent bundle built once from the compiled-in
//! template text, looked up by message id with an optional `.attribute`
//! suffix, and formatted with named arguments.
use fluent::bundle::FluentBundle;
use fluent::{FluentArgs, FluentResource};
use intl_memoizer::concurrent::IntlLangMemoizer;
use unic_langid::LanguageIdentifier;
use vstd::prelude::*;

use crate::text::{normalize, normalized};

verus! {

#[verifier::external_type_specification]
#[verifier::external_body]
#[verifier::reject_recursive_types(R)]
#[verifier::reject_recursive_types(M)]
pub struct ExFluentBundle<R, M>(FluentBundle<R, M>);

#[verifier::external_type_specification]
#[verifier::external_body]
pub struct ExFluentResource(FluentResource);

#[verifier::external_type_specification]
#[verifier::external_body]
pub struct ExFluentArgs<'a>(FluentArgs<'a>);

#[verifier::external_type_specification]
#[verifier::external_body]
pub struct ExLanguageIdentifier(LanguageIdentifier);

#[verifier::external_type_specification]
#[verifier::external_body]
pub struct ExIntlLangMemoizer(IntlLangMemoizer);

/// The bundle type that holds a catalog: shareable between threads.
pub type Bundle = FluentBundle<FluentResource, IntlLangMemoizer>;

/// What an argument looks like to a pattern: a number or a text.
pub enum ArgView {
    Number(int),
    Text(Seq<char>),
}

/// A typed argument value handed to a pattern.
pub enum ArgValue {
    Unsigned(u64),
    Signed(i64),
    Text(String),
}

impl ArgValue {
    pub open spec fn view(&self) -> ArgView {
        match self {
            ArgValue::Unsigned(n) => ArgView::Number(float_stored(*n as int)),
            ArgValue::Signed(n) => ArgView::Number(float_stored(*n as int)),
            ArgValue::Text(s) => ArgView::Text(s@),
        }
    }
}

/// The integer that Fluent keeps for a number argument: Fluent stores every
/// number as an `f64`, so this is `n` rounded to the nearest `f64`.
pub uninterp spec fn float_stored(n: int) -> int;

/// Up to 2^53 in size, an integer is an `f64` and is kept as it is.
pub open spec fn exactly_stored(n: int) -> bool {
    -0x20000000000000 <= n <= 0x20000000000000
}

/// The messages of a bundle: for each message id, whether it has a default
/// pattern, and the names of its attributes.
pub uninterp spec fn bundle_messages(b: Bundle) -> Map<Seq<char>, (bool, Set<Seq<char>>)>;

/// The named arguments held by a Fluent argument map.
pub uninterp spec fn fluent_args_entries(a: FluentArgs<'static>) -> Map<Seq<char>, ArgView>;

/// The text that a bundle formats for a message (or one of its attributes) with
/// the given arguments, before reflow.
pub uninterp spec fn formatted_text(
    b: Bundle,
    name: Seq<char>,
    attr: Option<Seq<char>>,
    args: Map<Seq<char>, ArgView>,
) -> Seq<char>;

/// Relies on `FluentArgs::new`: an empty argument map.
#[verifier::external_body]
fn fluent_args_new() -> (r: FluentArgs<'static>)
    ensures
        fluent_args_entries(r) =~= Map::empty(),
{
    FluentArgs::new()
}

/// Relies on `FluentArgs::set`: binds `key` to `value`, replacing an earlier
/// binding of the same key.
#[verifier::external_body]
fn fluent_args_set(mut a: FluentArgs<'static>, key: &str, value: ArgValue) -> (r: FluentArgs<
    'static,
>)
    ensures
        fluent_args_entries(r) == fluent_args_entries(a).insert(key@, value.view()),
        value matches ArgValue::Unsigned(n) ==> fluent_args_entries(r)[key@] == ArgView::Number(
            float_stored(n as int),
        ),
        value matches ArgValue::Signed(n) ==> fluent_args_entries(r)[key@] == ArgView::Number(
            float_stored(n as int),
        ),
        value matches ArgValue::Unsigned(n) ==> (exactly_stored(n as int) ==> fluent_args_entries(
            r,
        )[key@] == ArgView::Number(n as int)),
        value matches ArgValue::Signed(n) ==> (exactly_stored(n as int) ==> fluent_args_entries(
            r,
        )[key@] == ArgView::Number(n as int)),
{
    let key = key.to_string();
    match value {
        ArgValue::Unsigned(n) => a.set(key, n),
        ArgValue::Signed(n) => a.set(key, n),
        ArgValue::Text(s) => a.set(key, s),
    }
    a
}

/// Whether `unic_langid` accepts the text as a language tag.
pub uninterp spec fn tag_parses(tag: Seq<char>) -> bool;

/// Whether Fluent's parser accepts the template text without errors.
pub uninterp spec fn ftl_parses(source: Seq<char>) -> bool;

/// Whether the ids of the messages and terms of the template text are distinct.
pub uninterp spec fn ftl_ids_unique(source: Seq<char>) -> bool;

/// The messages of the template text: for each message id, whether it has a
/// default pattern, and the names of its attributes.
pub uninterp spec fn ftl_messages(source: Seq<char>) -> Map<Seq<char>, (bool, Set<Seq<char>>)>;

/// The template text that a parsed resource holds.
pub uninterp spec fn resource_source(res: FluentResource) -> Seq<char>;

/// Whether a bundle holds no entry at all (no message, no term).
pub uninterp spec fn bundle_is_empty(b: Bundle) -> bool;

/// Relies on `str::parse` into `unic_langid::LanguageIdentifier`: `None` when
/// the text is not a well-formed language tag.
#[verifier::external_body]
fn parse_language_id(tag: &str) -> (r: Option<LanguageIdentifier>)
    ensures
        r is Some <==> tag_parses(tag@),
{
    tag.parse().ok()
}

/// Relies on `FluentResource::try_new`: `None` when the template text has
/// syntax errors; a parsed resource owns its text (`FluentResource::source`).
#[verifier::external_body]
fn parse_resource(source: String) -> (r: Option<FluentResource>)
    ensures
        r is Some <==> ftl_parses(source@),
        r matches Some(res) ==> resource_source(res) == source@,
{
    FluentResource::try_new(source).ok()
}

/// Relies on `FluentBundle::new_concurrent`: a bundle for one locale, with no messages.
#[verifier::external_body]
fn new_bundle(locale: LanguageIdentifier) -> (r: Bundle)
    ensures
        bundle_messages(r) =~= Map::empty(),
        bundle_is_empty(r),
{
    FluentBundle::new_concurrent(vec![locale])
}

/// Relies on `FluentBundle::set_use_isolating`: a formatting option only; the
/// messages stay as they were.
#[verifier::external_body]
fn set_use_isolating(mut b: Bundle, value: bool) -> (r: Bundle)
    ensures
        bundle_messages(r) == bundle_messages(b),
        bundle_is_empty(r) == bundle_is_empty(b),
{
    b.set_use_isolating(value);
    b
}

/// Relies on `FluentBundle::add_resource`: `false` when an id of the resource
/// was already taken. Into an empty bundle, that is when the resource repeats
/// an id; otherwise the bundle then holds exactly the resource's messages.
#[verifier::external_body]
fn add_resource(mut b: Bundle, res: FluentResource) -> (r: (Bundle, bool))
    ensures
        bundle_is_empty(b) ==> (r.1 <==> ftl_ids_unique(resource_source(res))),
        bundle_is_empty(b) && r.1 ==> bundle_messages(r.0) == ftl_messages(resource_source(res)),
{
    let added = b.add_resource(res).is_ok();
    (b, added)
}

/// Relies on `FluentBundle::has_message`: whether a message of that id exists.
#[verifier::external_body]
fn has_message(b: &Bundle, name: &str) -> (r: bool)
    ensures
        r == bundle_messages(*b).contains_key(name@),
{
    b.has_message(name)
}

/// Whether request `name` / `attr` names a pattern of the bundle: the default
/// pattern of the message, or one of its attributes.
pub open spec fn has_pattern(b: Bundle, name: Seq<char>, attr: Option<Seq<char>>) -> bool {
    &&& bundle_messages(b).contains_key(name)
    &&& match attr {
        None => bundle_messages(b)[name].0,
        Some(a) => bundle_messages(b)[name].1.contains(a),
    }
}

/// Relies on `FluentBundle::get_message`, `FluentMessage::value` or
/// `get_attribute`, and `FluentBundle::format_pattern`: formats the default
/// pattern of a message, or one of its attributes, with the given arguments;
/// `None` when there is no such pattern. Missing arguments are reported by
/// Fluent as soft errors and are not fatal.
#[verifier::external_body]
fn format_message(b: &Bundle, name: &str, attr: Option<&str>, args: &FluentArgs<'static>) -> (r:
    Option<String>)
    ensures
        r is Some <==> has_pattern(*b, name@, opt_view(attr)),
        r matches Some(t) ==> t@ == formatted_text(*b, name@, opt_view(attr), fluent_args_entries(*args)),
{
    let message = b.get_message(name)?;
    let pattern = match attr {
        None => message.value(),
        Some(a) => message.get_attribute(a).map(|x| x.value()),
    };
    let mut errors = vec![];
    pattern.map(|p| b.format_pattern(p, Some(args), &mut errors).into_owned())
}

pub open spec fn opt_view(s: Option<&str>) -> Option<Seq<char>> {
    match s {
        Some(x) => Some(x@),
        None => None,
    }
}

/// Named arguments for one formatting call.
pub struct ArgumentSet {
    args: FluentArgs<'static>,
}

impl ArgumentSet {
    pub closed spec fn view(&self) -> Map<Seq<char>, ArgView> {
        fluent_args_entries(self.args)
    }

    /// An empty argument set.
    pub fn new() -> (r: ArgumentSet)
        ensures
            r.view() == Map::<Seq<char>, ArgView>::empty(),
    {
        ArgumentSet { args: fluent_args_new() }
    }

    /// Binds `name` to `value`, replacing an earlier binding of that name.
    pub fn with(self, name: &str, value: ArgValue) -> (r: ArgumentSet)
        ensures
            r.view() == self.view().insert(name@, value.view()),
            value matches ArgValue::Unsigned(n) ==> (exactly_stored(n as int) ==> r.view()[name@]
                == ArgView::Number(n as int)),
            value matches ArgValue::Signed(n) ==> (exactly_stored(n as int) ==> r.view()[name@]
                == ArgView::Number(n as int)),
    {
        ArgumentSet { args: fluent_args_set(self.args, name, value) }
    }

    /// Binds `name` to a text value.
    pub fn with_text(self, name: &str, value: &str) -> (r: ArgumentSet)
        ensures
            r.view() == self.view().insert(name@, ArgView::Text(value@)),
    {
        self.with(name, ArgValue::Text(String::from_str(value)))
    }

    /// Binds `name` to an unsigned number.
    pub fn with_number(self, name: &str, value: u64) -> (r: ArgumentSet)
        ensures
            r.view() == self.view().insert(name@, ArgView::Number(float_stored(value as int))),
            exactly_stored(value as int) ==> r.view()[name@] == ArgView::Number(value as int),
    {
        self.with(name, ArgValue::Unsigned(value))
    }
}

/// The part of a request id before its first `.`: the message id.
pub open spec fn message_name(id: Seq<char>) -> Seq<char>
    decreases id.len(),
{
    if id.len() == 0 {
        id
    } else if id[0] == '.' {
        Seq::empty()
    } else {
        seq![id[0]] + message_name(id.drop_first())
    }
}

/// The part of a request id after its first `.`, if there is one: the attribute name.
/// Later dots belong to the attribute name.
pub open spec fn attribute_name(id: Seq<char>) -> Option<Seq<char>>
    decreases id.len(),
{
    if id.len() == 0 {
        None
    } else if id[0] == '.' {
        Some(id.drop_first())
    } else {
        attribute_name(id.drop_first())
    }
}

proof fn lemma_split_at_dot(id: Seq<char>, k: int)
    requires
        0 <= k <= id.len(),
        forall|j: int| 0 <= j < k ==> id[j] != '.',
        k < id.len() ==> id[k] == '.',
    ensures
        message_name(id) == id.take(k),
        attribute_name(id) == (if k < id.len() {
            Some(id.skip(k + 1))
        } else {
            None::<Seq<char>>
        }),
    decreases k,
{
    if k > 0 {
        let rest = id.drop_first();
        assert forall|j: int| 0 <= j < k - 1 implies rest[j] != '.' by {
            assert(rest[j] == id[j + 1]);
        }
        lemma_split_at_dot(rest, k - 1);
        assert(id.take(k) =~= seq![id[0]] + rest.take(k - 1));
        if k < id.len() {
            assert(id.skip(k + 1) =~= rest.skip(k));
        }
    } else {
        assert(id.take(0) =~= Seq::<char>::empty());
        if id.len() > 0 {
            assert(id.skip(1) =~= id.drop_first());
        }
    }
}

/// Splits a request id at its first `.`.
pub fn split_id(id: &str) -> (r: (&str, Option<&str>))
    ensures
        r.0@ == message_name(id@),
        opt_view(r.1) == attribute_name(id@),
{
    let n = id.unicode_len();
    let mut k: usize = 0;
    while k < n
        invariant
            k <= n,
            n == id@.len(),
            forall|j: int| 0 <= j < k ==> id@[j] != '.',
        ensures
            k <= n,
            forall|j: int| 0 <= j < k ==> id@[j] != '.',
            k < n ==> id@[k as int] == '.',
        decreases n - k,
    {
        if id.get_char(k) == '.' {
            break;
        }
        k = k + 1;
    }
    proof {
        lemma_split_at_dot(id@, k as int);
    }
    let name = id.substring_char(0, k);
    if k < n {
        (name, Some(id.substring_char(k + 1, n)))
    } else {
        (name, None)
    }
}

/// How a request resolved: the reflowed text, or why there is none.
pub enum Resolution {
    Text(String),
    CannotLock,
    NoMessage(String),
    NoValue(String),
    NoAttribute(String),
}

/// The model of a `Resolution`.
pub enum ResolutionView {
    Text(Seq<char>),
    CannotLock,
    NoMessage(Seq<char>),
    NoValue(Seq<char>),
    NoAttribute(Seq<char>),
}

impl Resolution {
    pub open spec fn view(&self) -> ResolutionView {
        match self {
            Resolution::Text(s) => ResolutionView::Text(s@),
            Resolution::CannotLock => ResolutionView::CannotLock,
            Resolution::NoMessage(s) => ResolutionView::NoMessage(s@),
            Resolution::NoValue(s) => ResolutionView::NoValue(s@),
            Resolution::NoAttribute(s) => ResolutionView::NoAttribute(s@),
        }
    }

    /// The displayable form: the text itself, or a diagnostic naming the request.
    pub fn render(self) -> (r: String)
        ensures
            r@ == rendered(self.view()),
    {
        match self {
            Resolution::Text(s) => s,
            Resolution::CannotLock => String::from_str(CANNOT_LOCK),
            Resolution::NoMessage(id) => String::from_str(NO_MESSAGE).concat(id.as_str()),
            Resolution::NoValue(id) => String::from_str(NO_VALUE).concat(id.as_str()),
            Resolution::NoAttribute(id) => String::from_str(NO_ATTRIBUTE).concat(id.as_str()),
        }
    }
}

pub const CANNOT_LOCK: &'static str = "fluent-cannot-lock";

pub const NO_MESSAGE: &'static str = "fluent-no-message=";

pub const NO_VALUE: &'static str = "fluent-no-message-value=";

pub const NO_ATTRIBUTE: &'static str = "fluent-no-attr=";

/// The displayable form of a resolution.
pub open spec fn rendered(r: ResolutionView) -> Seq<char> {
    match r {
        ResolutionView::Text(s) => s,
        ResolutionView::CannotLock => CANNOT_LOCK@,
        ResolutionView::NoMessage(id) => NO_MESSAGE@ + id,
        ResolutionView::NoValue(id) => NO_VALUE@ + id,
        ResolutionView::NoAttribute(id) => NO_ATTRIBUTE@ + id,
    }
}

/// How request `id` resolves against bundle `b` with arguments `args`.
pub open spec fn resolution_of(b: Bundle, id: Seq<char>, args: Map<Seq<char>, ArgView>) -> ResolutionView {
    let name = message_name(id);
    let messages = bundle_messages(b);
    if !messages.contains_key(name) {
        ResolutionView::NoMessage(id)
    } else {
        match attribute_name(id) {
            None => if messages[name].0 {
                ResolutionView::Text(normalized(formatted_text(b, name, None, args)))
            } else {
                ResolutionView::NoValue(id)
            },
            Some(attr) => if messages[name].1.contains(attr) {
                ResolutionView::Text(normalized(formatted_text(b, name, Some(attr), args)))
            } else {
                ResolutionView::NoAttribute(id)
            },
        }
    }
}

/// `needle` occurs somewhere in `hay`.
pub open spec fn contains_text(hay: Seq<char>, needle: Seq<char>) -> bool {
    exists|k: int|
        0 <= k && k + needle.len() <= hay.len() && #[trigger] hay.subrange(k, k + needle.len())
            == needle
}

proof fn lemma_suffix_contained(prefix: Seq<char>, id: Seq<char>)
    ensures
        contains_text(prefix + id, id),
{
    let k = prefix.len() as int;
    assert((prefix + id).subrange(k, k + id.len()) =~= id);
}

/// A message id without a dot that names a message with a default pattern
/// resolves to text, never to a diagnostic, whatever the arguments.
pub proof fn law_registered_message_resolves(
    b: Bundle,
    id: Seq<char>,
    args: Map<Seq<char>, ArgView>,
)
    requires
        forall|j: int| 0 <= j < id.len() ==> id[j] != '.',
        bundle_messages(b).contains_key(id),
        bundle_messages(b)[id].0,
    ensures
        resolution_of(b, id, args) is Text,
        rendered(resolution_of(b, id, args)) == normalized(formatted_text(b, id, None, args)),
{
    lemma_split_at_dot(id, id.len() as int);
    assert(id.take(id.len() as int) =~= id);
}

/// A request whose message id is not in the catalog renders as a diagnostic
/// that holds the whole request id.
pub proof fn law_unknown_message_names_id(
    b: Bundle,
    id: Seq<char>,
    args: Map<Seq<char>, ArgView>,
)
    requires
        !bundle_messages(b).contains_key(message_name(id)),
    ensures
        resolution_of(b, id, args) == ResolutionView::NoMessage(id),
        contains_text(rendered(resolution_of(b, id, args)), id),
{
    lemma_suffix_contained(NO_MESSAGE@, id);
}

/// A request `msg.attr` whose message exists without attribute `attr` renders
/// as a diagnostic that holds the whole request `msg.attr`.
pub proof fn law_unknown_attribute_names_id(
    b: Bundle,
    id: Seq<char>,
    args: Map<Seq<char>, ArgView>,
)
    requires
        bundle_messages(b).contains_key(message_name(id)),
        attribute_name(id) is Some,
        !bundle_messages(b)[message_name(id)].1.contains(attribute_name(id)->0),
    ensures
        resolution_of(b, id, args) == ResolutionView::NoAttribute(id),
        contains_text(rendered(resolution_of(b, id, args)), id),
{
    lemma_suffix_contained(NO_ATTRIBUTE@, id);
}

/// Why a catalog could not be built.
#[derive(Debug, PartialEq, Eq, Structural, Clone, Copy)]
pub enum CatalogError {
    InvalidLocale,
    InvalidSource,
    DuplicateId,
}

/// A loaded catalog of message templates for one locale. Read-only once built.
pub struct Catalog {
    bundle: Bundle,
}

impl Catalog {
    pub closed spec fn bundle(&self) -> Bundle {
        self.bundle
    }

    /// Builds a catalog for language tag `locale` from template text `source`.
    pub fn load(locale: &str, source: &str) -> (r: Result<Catalog, CatalogError>)
        ensures
            r is Ok <==> (tag_parses(locale@) && ftl_parses(source@) && ftl_ids_unique(source@)),
            r == Err::<Catalog, CatalogError>(CatalogError::InvalidLocale) <==> !tag_parses(locale@),
            r == Err::<Catalog, CatalogError>(CatalogError::InvalidSource) <==> (tag_parses(locale@)
                && !ftl_parses(source@)),
            r == Err::<Catalog, CatalogError>(CatalogError::DuplicateId) <==> (tag_parses(locale@)
                && ftl_parses(source@) && !ftl_ids_unique(source@)),
            r matches Ok(c) ==> bundle_messages(c.bundle()) == ftl_messages(source@),
    {
        let lang = match parse_language_id(locale) {
            Some(l) => l,
            None => return Err(CatalogError::InvalidLocale),
        };
        let resource = match parse_resource(String::from_str(source)) {
            Some(r) => r,
            None => return Err(CatalogError::InvalidSource),
        };
        let bundle = set_use_isolating(new_bundle(lang), false);
        let (bundle, added) = add_resource(bundle, resource);
        if added {
            Ok(Catalog { bundle })
        } else {
            Err(CatalogError::DuplicateId)
        }
    }

    /// Resolves request `id` (a message id, or `message.attribute`) with `args`:
    /// the reflowed formatted text, or which part of the request is missing.
    pub fn resolve(&self, id: &str, args: &ArgumentSet) -> (r: Resolution)
        ensures
            r.view() == resolution_of(self.bundle(), id@, args.view()),
    {
        let (name, attr) = split_id(id);
        if !has_message(&self.bundle, name) {
            return Resolution::NoMessage(String::from_str(id));
        }
        match format_message(&self.bundle, name, attr, &args.args) {
            Some(raw) => Resolution::Text(normalize(raw.as_str())),
            None => match attr {
                None => Resolution::NoValue(String::from_str(id)),
                Some(_) => Resolution::NoAttribute(String::from_str(id)),
            },
        }
    }

    /// The displayable text for request `id`: never fails, a diagnostic stands
    /// in for what is missing.
    pub fn translate_args(&self, id: &str, args: &ArgumentSet) -> (r: String)
        ensures
            r@ == rendered(resolution_of(self.bundle(), id@, args.view())),
    {
        self.resolve(id, args).render()
    }

    /// `translate_args` with no arguments.
    pub fn translate(&self, id: &str) -> (r: String)
        ensures
            r@ == rendered(resolution_of(self.bundle(), id@, Map::empty())),
    {
        let args = ArgumentSet::new();
        self.translate_args(id, &args)
    }
}

} // verus!
