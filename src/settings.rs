use vstd::prelude::*;

use jsonc_parser::cst::{CstInputValue, CstObject, CstObjectProp, CstRootNode};
use jsonc_parser::errors::ParseError;
use jsonc_parser::ParseOptions;

use crate::process::{InstallError, ShapeFailure};
use crate::text::{blank, is_blank, opt_view};

verus! {

#[verifier::external_type_specification]
#[verifier::external_body]
pub struct ExCstRootNode(CstRootNode);

#[verifier::external_type_specification]
#[verifier::external_body]
pub struct ExCstObject(CstObject);

#[verifier::external_type_specification]
#[verifier::external_body]
pub struct ExCstObjectProp(CstObjectProp);

#[verifier::external_type_specification]
#[verifier::external_body]
pub struct ExParseError(ParseError);

/// The text of the tree that jsonc-parser builds from `text` (with its
/// default, tolerant options), or `None` where it rejects the text.
pub uninterp spec fn jsonc_parse(text: Seq<char>) -> Option<Seq<char>>;

/// The document's text once its root value is an object (created where the
/// document holds no value), or `None` where the root value is not an object.
pub uninterp spec fn jsonc_root_object(text: Seq<char>) -> Option<Seq<char>>;

/// The document's text once the root object's member `key` is an object
/// (appended where absent), or `None` where its value is not an object.
pub uninterp spec fn jsonc_member_object(text: Seq<char>, key: Seq<char>) -> Option<Seq<char>>;

/// Whether the object under the root's member `key` has a property `name`.
pub uninterp spec fn jsonc_has_member(text: Seq<char>, key: Seq<char>, name: Seq<char>) -> bool;

/// The document's text once the property `name`, with the boolean `value`,
/// is appended to the object under the root's member `key`.
pub uninterp spec fn jsonc_appended(text: Seq<char>, key: Seq<char>, name: Seq<char>, value: bool) -> Seq<char>;

/// The document's text once the value of the property `name` of the object
/// under the root's member `key` is replaced by the boolean `value`.
pub uninterp spec fn jsonc_replaced(text: Seq<char>, key: Seq<char>, name: Seq<char>, value: bool) -> Seq<char>;

/// The key under which the editor lists the extensions it installs itself.
pub const AUTO_INSTALL_KEY: &'static str = "auto_install_extensions";

/// The extension's key in that list.
pub const EXTENSION_KEY: &'static str = "wakatime";

/// A parsed settings tree; `text` is what it prints.
struct ParsedSettings {
    root: CstRootNode,
    text: Ghost<Seq<char>>,
}

/// A tree whose root object is at hand.
struct RootOpened {
    root: CstRootNode,
    top: CstObject,
    text: Ghost<Seq<char>>,
}

/// A tree with the object under the root's member `key` at hand.
struct ListOpened {
    root: CstRootNode,
    list: CstObject,
    key: Ghost<Seq<char>>,
    text: Ghost<Seq<char>>,
}

/// A tree with the property `name` of that object at hand.
struct MemberFound {
    root: CstRootNode,
    prop: CstObjectProp,
    key: Ghost<Seq<char>>,
    name: Ghost<Seq<char>>,
    text: Ghost<Seq<char>>,
}

/// A tree after its edit.
struct PatchedSettings {
    root: CstRootNode,
    text: Ghost<Seq<char>>,
}

/// Relies on `CstRootNode::parse` with default options: it reads nothing
/// but the text.
#[verifier::external_body]
fn parse_settings(text: &str) -> (r: Result<ParsedSettings, ParseError>)
    ensures
        match jsonc_parse(text@) {
            Some(t) => r is Ok && r->Ok_0.text@ == t,
            None => r is Err,
        },
{
    match CstRootNode::parse(text, &ParseOptions::default()) {
        Ok(root) => Ok(ParsedSettings { root, text: Ghost(jsonc_parse(text@)->0) }),
        Err(e) => Err(e),
    }
}

/// Relies on `ParseError`'s `Display`: the parser's diagnostic.
#[verifier::external_body]
fn diagnostic(e: &ParseError) -> (r: String) {
    e.to_string()
}

/// Relies on `CstRootNode::object_value_or_create`: the root object,
/// created where the document holds no value; `None` where the root value
/// is not an object.
#[verifier::external_body]
fn open_root(doc: ParsedSettings) -> (r: Option<RootOpened>)
    ensures
        match jsonc_root_object(doc.text@) {
            Some(t) => r is Some && r->0.text@ == t,
            None => r is None,
        },
{
    match doc.root.object_value_or_create() {
        Some(top) => Some(RootOpened { root: doc.root, top, text: Ghost(jsonc_root_object(doc.text@)->0) }),
        None => None,
    }
}

/// Relies on `CstObject::object_value_or_create` on the root object: the
/// object under `key`, appended where the key is absent; `None` where its
/// value is not an object.
#[verifier::external_body]
fn open_member(doc: RootOpened, key: &str) -> (r: Option<ListOpened>)
    ensures
        match jsonc_member_object(doc.text@, key@) {
            Some(t) => r is Some && r->0.text@ == t && r->0.key@ == key@,
            None => r is None,
        },
{
    match doc.top.object_value_or_create(key) {
        Some(list) => Some(ListOpened {
            root: doc.root,
            list,
            key: Ghost(key@),
            text: Ghost(jsonc_member_object(doc.text@, key@)->0),
        }),
        None => None,
    }
}

/// Relies on `CstObject::get`: the property `name`, if the object has one;
/// the lookup changes nothing.
#[verifier::external_body]
fn find_member(doc: ListOpened, name: &str) -> (r: Result<MemberFound, ListOpened>)
    ensures
        r is Ok <==> jsonc_has_member(doc.text@, doc.key@, name@),
        r matches Ok(m) ==> m.text@ == doc.text@ && m.key@ == doc.key@ && m.name@ == name@,
        r matches Err(l) ==> l.text@ == doc.text@ && l.key@ == doc.key@,
{
    match doc.list.get(name) {
        Some(prop) => Ok(MemberFound { root: doc.root, prop, key: doc.key, name: Ghost(name@), text: doc.text }),
        None => Err(doc),
    }
}

/// Relies on `CstObject::append`: adds the property `name` with the boolean
/// `value` after the others, in the object's style.
#[verifier::external_body]
fn append_member(doc: ListOpened, name: &str, value: bool) -> (r: PatchedSettings)
    ensures
        r.text@ == jsonc_appended(doc.text@, doc.key@, name@, value),
{
    doc.list.append(name, CstInputValue::Bool(value));
    PatchedSettings { root: doc.root, text: Ghost(jsonc_appended(doc.text@, doc.key@, name@, value)) }
}

/// Relies on `CstObjectProp::set_value`: replaces the property's value by the
/// boolean `value`, keeping its name, position and comments.
#[verifier::external_body]
fn set_member(doc: MemberFound, value: bool) -> (r: PatchedSettings)
    ensures
        r.text@ == jsonc_replaced(doc.text@, doc.key@, doc.name@, value),
{
    doc.prop.set_value(CstInputValue::Bool(value));
    PatchedSettings { root: doc.root, text: Ghost(jsonc_replaced(doc.text@, doc.key@, doc.name@, value)) }
}

/// Relies on `CstRootNode`'s `Display`: the tree's text, formatting and
/// comments included.
#[verifier::external_body]
fn render(doc: &PatchedSettings) -> (r: String)
    ensures
        r@ == doc.text@,
{
    doc.root.to_string()
}

/// The text of a document patched so that the extension's key under the
/// auto-install list holds `true`: `None` where the text does not parse, its
/// root is not an object, or the list is not an object.
pub open spec fn spec_patched(src: Seq<char>) -> Option<Seq<char>> {
    match jsonc_parse(src) {
        None => None,
        Some(t0) => match jsonc_root_object(t0) {
            None => None,
            Some(t1) => match jsonc_member_object(t1, AUTO_INSTALL_KEY@) {
                None => None,
                Some(t2) => Some(
                    if jsonc_has_member(t2, AUTO_INSTALL_KEY@, EXTENSION_KEY@) {
                        jsonc_replaced(t2, AUTO_INSTALL_KEY@, EXTENSION_KEY@, true)
                    } else {
                        jsonc_appended(t2, AUTO_INSTALL_KEY@, EXTENSION_KEY@, true)
                    },
                ),
            },
        },
    }
}

/// Whether the patch of `src` stops at a root value that is not an object.
pub open spec fn root_not_object(src: Seq<char>) -> bool {
    match jsonc_parse(src) {
        Some(t0) => jsonc_root_object(t0) is None,
        None => false,
    }
}

/// What the patch of `src`, on behalf of the file at `path`, gives: the
/// patched text, or the error that names why there is none.
pub open spec fn patch_outcome(path: Seq<char>, src: Seq<char>, r: Result<String, InstallError>) -> bool {
    match r {
        Ok(s) => spec_patched(src) == Some(s@),
        Err(InstallError::ConfigParse { path: p, .. }) => p@ == path && jsonc_parse(src) is None,
        Err(InstallError::ConfigShape { path: p, failure: ShapeFailure::Root }) => p@ == path
            && root_not_object(src),
        Err(InstallError::ConfigShape { path: p, failure: ShapeFailure::Key(k) }) => p@ == path
            && k@ == AUTO_INSTALL_KEY@ && jsonc_parse(src) is Some && !root_not_object(src)
            && spec_patched(src) is None,
        Err(_) => false,
    }
}

/// The text that is parsed for a settings file: its content, or an empty
/// object where the file is absent or blank.
pub open spec fn spec_settings_source(content: Option<Seq<char>>) -> Seq<char> {
    match content {
        Some(c) => if blank(c) {
            "{}"@
        } else {
            c
        },
        None => "{}"@,
    }
}

/// The text that is parsed for a settings file whose content is `content`
/// (`None` where there is no file).
pub fn settings_source(content: Option<&str>) -> (r: String)
    ensures
        r@ == spec_settings_source(opt_view(content)),
{
    match content {
        Some(c) => if is_blank(c) {
            String::from_str("{}")
        } else {
            String::from_str(c)
        },
        None => String::from_str("{}"),
    }
}

/// Patches the settings document at `path`, whose content is `content`
/// (`None` where there is no file), so that the extension's key under
/// the auto-install list holds `true`. The list is created where absent;
/// everything else in the document, comments included, is kept. Returns
/// the new text of the file.
///
/// Fails with `ConfigParse` where the text to patch is not a JSON document
/// with comments, and with `ConfigShape` where the root or the list is not an
/// object; succeeds otherwise.
pub fn patch_settings(path: &str, content: Option<&str>) -> (r: Result<String, InstallError>)
    ensures
        patch_outcome(path@, spec_settings_source(opt_view(content)), r),
        r is Ok <==> spec_patched(spec_settings_source(opt_view(content))) is Some,
{
    let source = settings_source(content);
    let parsed = match parse_settings(source.as_str()) {
        Ok(parsed) => parsed,
        Err(e) => {
            return Err(InstallError::ConfigParse { path: String::from_str(path), detail: diagnostic(&e) });
        },
    };
    let top = match open_root(parsed) {
        Some(top) => top,
        None => {
            return Err(InstallError::ConfigShape { path: String::from_str(path), failure: ShapeFailure::Root });
        },
    };
    let list = match open_member(top, AUTO_INSTALL_KEY) {
        Some(list) => list,
        None => {
            return Err(
                InstallError::ConfigShape {
                    path: String::from_str(path),
                    failure: ShapeFailure::Key(String::from_str(AUTO_INSTALL_KEY)),
                },
            );
        },
    };
    let patched = match find_member(list, EXTENSION_KEY) {
        Ok(member) => set_member(member, true),
        Err(list) => append_member(list, EXTENSION_KEY, true),
    };
    Ok(render(&patched))
}

} // verus!
