//! IPP (Internet Printing Protocol) requests and responses.
//!
//! A request is built up attribute by attribute and handed to libcups to be
//! sent; a response is the message libcups received, read into plain values.
//! The queries here (by name, by group, collection members, text members)
//! work on those values.

use vstd::prelude::*;
use vstd::string::StringSliceAdditionalSpecFns;
use vstd::utf8::encode_utf8;
use crate::error::Error;
use crate::tags::IppOperation;
use crate::tags::IppStatus;
use crate::tags::IppTag;
use crate::tags::IppValueTag;
use crate::tags::IPP_TAG_ENUM;
use crate::tags::IPP_TAG_INTEGER;
use crate::tags::IPP_TAG_MIMETYPE;
use crate::tags::IPP_TAG_NAMELANG;
use crate::tags::IPP_TAG_TEXT;
use crate::tags::IPP_TAG_TEXTLANG;
use crate::tags::group_code;
use crate::tags::group_from_code;
use crate::tags::status_from_code;
use crate::tags::successful;
use crate::tags::text_like;
use crate::tags::lemma_text_like_codes;
use crate::tags::value_tag_code;
use crate::tags::value_tag_from_code;
use crate::text::has_nul;
use crate::text::nul_position;
use crate::text::eq_ignore_ascii_case;
use crate::text::same_ignoring_ascii_case;
use crate::text::lemma_ascii_case_match;
use crate::text::trim_white_space;
use crate::text::lemma_trim_ws_edges;
use crate::text::trim_ws;
use crate::text::white_space;

verus! {

/// One value of an attribute, as libcups reports it for the attribute's
/// value tag.
#[derive(Debug)]
pub enum IppValue {
    /// An `integer` or `enum` value.
    Integer(i32),
    /// A `boolean` value.
    Boolean(bool),
    /// A string value of any of the string types (text, name, keyword, uri...).
    Text(String),
    /// A collection value: a record of named member attributes.
    Collection(IppCollection),
    /// A value of a type read by none of the accessors here (dates,
    /// resolutions, ranges, octet strings, out-of-band values).
    Other,
}

/// An IPP attribute
///
/// Represents a single attribute from an IPP message. Attributes can contain
/// one or more values of various types (string, integer, boolean, etc.).
#[derive(Debug)]
pub struct IppAttribute {
    /// The attribute name; a separator between groups has none.
    pub name: Option<String>,
    /// The raw group tag the attribute arrived in.
    pub group: i32,
    /// The raw value tag of the attribute's values.
    pub value_tag: i32,
    /// The values, in order.
    pub values: Vec<IppValue>,
}

/// One collection value read out of an IPP attribute.
///
/// Collections are how IPP carries a record with named members. PAPPL uses them
/// to report output devices (`smi55357-device-col`) and drivers
/// (`smi55357-driver-col`), one collection per device or driver.
#[derive(Debug)]
pub struct IppCollection {
    /// The member attributes, in order.
    pub attributes: Vec<IppAttribute>,
}

/// An IPP response message
///
/// Represents the response to an IPP request: its status code and the
/// attributes that can be queried.
#[derive(Debug)]
pub struct IppResponse {
    /// The status code exactly as the peer sent it.
    pub status_code: i32,
    /// The attributes, in the order the peer sent them.
    pub attributes: Vec<IppAttribute>,
}

/// An IPP request message
///
/// Represents an IPP request that can be customized with attributes before it
/// is sent to a CUPS server.
///
/// Adding an attribute here refuses only names and values libcups cannot
/// carry as C strings. libcups's own checks of an attribute (its value tag,
/// its group, a non-empty value list) run when the request is turned into a
/// libcups message to be sent; an attribute it refuses fails that send.
#[derive(Debug)]
pub struct IppRequest {
    /// The operation the request performs.
    pub operation: IppOperation,
    /// The attributes added so far, in order.
    pub attributes: Vec<IppAttribute>,
}

/// A name libcups can look up: one that holds no zero byte.
pub open spec fn c_name(name: Seq<char>) -> bool {
    !has_nul(encode_utf8(name))
}

/// The attribute carries the name `name`, compared as libcups compares
/// attribute names: ASCII letters match in either case.
///
/// A name is one attribute's name here; libcups's reading of `parent/child`
/// as a path into a collection is not offered. Walk into a collection with
/// [`IppAttribute::get_collection`] and [`IppCollection::find`] instead.
pub open spec fn attr_named(a: IppAttribute, name: Seq<char>) -> bool {
    a.name matches Some(n) && same_ignoring_ascii_case(n@, name)
}

/// The attribute carries exactly the name `name`.
pub open spec fn attr_named_exactly(a: IppAttribute, name: Seq<char>) -> bool {
    a.name matches Some(n) && n@ == name
}

/// The attribute arrived in `group`, or `group` is `None` (any group).
pub open spec fn attr_in_group(a: IppAttribute, group: Option<IppTag>) -> bool {
    group matches Some(g) ==> group_from_code(a.group) == Some(g)
}

/// Selects the attributes named `name`.
pub open spec fn named(name: Seq<char>) -> spec_fn(IppAttribute) -> bool {
    |a: IppAttribute| attr_named(a, name)
}

/// Selects the attributes named `name` that arrived in `group`.
pub open spec fn selected(name: Seq<char>, group: Option<IppTag>) -> spec_fn(IppAttribute) -> bool {
    |a: IppAttribute| attr_named(a, name) && attr_in_group(a, group)
}

/// Every attribute of `attrs` named `name`, in order.
pub open spec fn attributes_named_in(attrs: Seq<IppAttribute>, name: Seq<char>) -> Seq<IppAttribute> {
    if c_name(name) {
        attrs.filter(named(name))
    } else {
        Seq::empty()
    }
}

/// The first attribute of `attrs` named `name` in `group`.
pub open spec fn first_selected(attrs: Seq<IppAttribute>, name: Seq<char>, group: Option<IppTag>) -> Option<IppAttribute> {
    let found = attrs.filter(selected(name, group));
    if c_name(name) && found.len() > 0 {
        Some(found[0])
    } else {
        None
    }
}

/// The collection held by value `index` of `a`, when `a` is a collection
/// attribute and the index is in range.
pub open spec fn collection_at(a: IppAttribute, index: int) -> Option<IppCollection> {
    if value_tag_from_code(a.value_tag) == IppValueTag::BeginCollection && 0 <= index
        < a.values@.len() {
        match a.values@[index] {
            IppValue::Collection(c) => Some(c),
            _ => None,
        }
    } else {
        None
    }
}

/// The collection held by a value, if it holds one.
pub open spec fn value_collection(v: IppValue) -> Option<IppCollection> {
    match v {
        IppValue::Collection(c) => Some(c),
        _ => None,
    }
}

/// The collections among `vals`, in order.
pub open spec fn collections_in(vals: Seq<IppValue>) -> Seq<IppCollection> {
    vals.filter_map(|v: IppValue| value_collection(v))
}

/// Every collection value of `a`, in order; none unless `a` is a collection
/// attribute.
pub open spec fn collections_of(a: IppAttribute) -> Seq<IppCollection> {
    if value_tag_from_code(a.value_tag) == IppValueTag::BeginCollection {
        collections_in(a.values@)
    } else {
        Seq::empty()
    }
}

/// The string held by value `index` of `a`.
pub open spec fn string_at(a: IppAttribute, index: int) -> Option<Seq<char>> {
    if 0 <= index < a.values@.len() {
        match a.values@[index] {
            IppValue::Text(s) => Some(s@),
            _ => None,
        }
    } else {
        None
    }
}

/// The integer held by value `index` of `a`, or 0.
pub open spec fn integer_at(a: IppAttribute, index: int) -> i32 {
    if 0 <= index < a.values@.len() {
        match a.values@[index] {
            IppValue::Integer(v) => v,
            _ => 0,
        }
    } else {
        0
    }
}

/// The boolean held by value `index` of `a`, or false.
pub open spec fn boolean_at(a: IppAttribute, index: int) -> bool {
    if 0 <= index < a.values@.len() {
        match a.values@[index] {
            IppValue::Boolean(v) => v,
            _ => false,
        }
    } else {
        false
    }
}

/// The text of member `name` of `c`: its first value, trimmed of white
/// space, when the member is text-like or a URI and that value is not blank.
pub open spec fn member_text(c: IppCollection, name: Seq<char>) -> Option<Seq<char>> {
    match first_selected(c.attributes@, name, None) {
        None => None,
        Some(a) => {
            let tag = value_tag_from_code(a.value_tag);
            if !text_like(tag) && tag != IppValueTag::Uri {
                None
            } else {
                match string_at(a, 0) {
                    None => None,
                    Some(s) => if trim_ws(s).len() == 0 {
                        None
                    } else {
                        Some(trim_ws(s))
                    },
                }
            }
        }
    }
}

proof fn lemma_filter_step<A>(s: Seq<A>, p: spec_fn(A) -> bool, i: int)
    requires
        0 <= i < s.len(),
    ensures
        s.take(i + 1).filter(p) == (if p(s[i]) {
            s.take(i).filter(p).push(s[i])
        } else {
            s.take(i).filter(p)
        }),
{
    reveal(Seq::filter);
    assert(s.take(i + 1).drop_last() =~= s.take(i));
    assert(s.take(i + 1).last() == s[i]);
}

proof fn lemma_filter_map_step<A, B>(s: Seq<A>, f: spec_fn(A) -> Option<B>, i: int)
    requires
        0 <= i < s.len(),
    ensures
        s.take(i + 1).filter_map(f) == (match f(s[i]) {
            Some(b) => s.take(i).filter_map(f).push(b),
            None => s.take(i).filter_map(f),
        }),
{
    assert(s.take(i + 1).drop_last() =~= s.take(i));
    assert(s.take(i + 1).last() == s[i]);
}

proof fn lemma_filter_first<A>(s: Seq<A>, p: spec_fn(A) -> bool, i: int)
    requires
        0 <= i < s.len(),
        s.take(i).filter(p).len() == 0,
        p(s[i]),
    ensures
        s.filter(p).len() > 0,
        s.filter(p)[0] == s[i],
{
    lemma_filter_step(s, p, i);
    assert(s =~= s.take(i + 1) + s.skip(i + 1));
    Seq::filter_distributes_over_add(s.take(i + 1), s.skip(i + 1), p);
}

/// Whether `a` carries the name `name`.
fn has_name(a: &IppAttribute, name: &str) -> (r: bool)
    ensures
        r == attr_named(*a, name@),
{
    match &a.name {
        Some(n) => eq_ignore_ascii_case(n.as_str(), name),
        None => false,
    }
}

/// Whether `a` arrived in `group` (any group when `None`).
fn in_group(a: &IppAttribute, group: Option<IppTag>) -> (r: bool)
    ensures
        r == attr_in_group(*a, group),
{
    match group {
        None => true,
        Some(g) => match IppTag::from_code(a.group) {
            Some(t) => t == g,
            None => false,
        },
    }
}

/// The first attribute of `attrs` named `name` in `group`.
fn find_first<'a>(attrs: &'a Vec<IppAttribute>, name: &str, group: Option<IppTag>) -> (r: Option<
    &'a IppAttribute,
>)
    ensures
        match r {
            Some(a) => first_selected(attrs@, name@, group) == Some(*a),
            None => first_selected(attrs@, name@, group) is None,
        },
{
    if nul_position(name).is_some() {
        return None;
    }
    let ghost p = selected(name@, group);
    let mut i: usize = 0;
    while i < attrs.len()
        invariant
            i <= attrs@.len(),
            p == selected(name@, group),
            c_name(name@),
            attrs@.take(i as int).filter(p).len() == 0,
        decreases attrs@.len() - i,
    {
        let a = &attrs[i];
        proof {
            lemma_filter_step(attrs@, p, i as int);
        }
        if has_name(a, name) && in_group(a, group) {
            proof {
                lemma_filter_first(attrs@, p, i as int);
            }
            return Some(a);
        }
        i = i + 1;
    }
    assert(attrs@.take(attrs@.len() as int) =~= attrs@);
    None
}

impl IppAttribute {
    /// Get the attribute name
    pub fn name(&self) -> (r: Option<String>)
        ensures
            r == self.name,
    {
        match &self.name {
            Some(n) => Some(n.clone()),
            None => None,
        }
    }

    /// Get the number of values
    pub fn count(&self) -> (r: usize)
        ensures
            r == self.values@.len(),
    {
        self.values.len()
    }

    /// Returns the type of the values this attribute holds.
    ///
    /// Use this before reading a value to confirm the peer sent the type you
    /// expect, rather than trusting an attribute name.
    pub fn value_tag(&self) -> (r: IppValueTag)
        ensures
            r == value_tag_from_code(self.value_tag),
    {
        IppValueTag::from_code(self.value_tag)
    }

    /// Returns the attribute group this attribute arrived in.
    ///
    /// `None` means the group tag is not one of the known groups, which is
    /// grounds for rejecting the attribute rather than interpreting it.
    pub fn group_tag(&self) -> (r: Option<IppTag>)
        ensures
            r == group_from_code(self.group),
    {
        IppTag::from_code(self.group)
    }

    /// Reads one collection value.
    ///
    /// Returns `None` when the index is out of range or the attribute is not a
    /// collection, so a peer sending the wrong type cannot be misread as one.
    pub fn get_collection(&self, index: usize) -> (r: Option<&IppCollection>)
        ensures
            match r {
                Some(c) => collection_at(*self, index as int) == Some(*c),
                None => collection_at(*self, index as int) is None,
            },
    {
        if self.value_tag() != IppValueTag::BeginCollection || index >= self.values.len() {
            return None;
        }
        match &self.values[index] {
            IppValue::Collection(c) => Some(c),
            _ => None,
        }
    }

    /// Reads every collection value in order.
    pub fn collections(&self) -> (r: Vec<&IppCollection>)
        ensures
            r@.map_values(|c: &IppCollection| *c) == collections_of(*self),
    {
        let mut found: Vec<&IppCollection> = Vec::new();
        let n = self.values.len();
        let ghost f = |v: IppValue| value_collection(v);
        let is_collection = self.value_tag() == IppValueTag::BeginCollection;
        let mut i: usize = 0;
        while i < n
            invariant
                n == self.values@.len(),
                i <= n,
                is_collection == (value_tag_from_code(self.value_tag)
                    == IppValueTag::BeginCollection),
                f == (|v: IppValue| value_collection(v)),
                found@.map_values(|c: &IppCollection| *c) == (if is_collection {
                    collections_in(self.values@.take(i as int))
                } else {
                    Seq::empty()
                }),
            decreases n - i,
        {
            let ghost before = found@;
            proof {
                lemma_filter_map_step(self.values@, f, i as int);
            }
            match self.get_collection(i) {
                Some(c) => {
                    found.push(c);
                    assert(found@.map_values(|c: &IppCollection| *c) =~= before.map_values(
                        |c: &IppCollection| *c,
                    ).push(*c));
                },
                None => {},
            }
            i = i + 1;
        }
        assert(self.values@.take(n as int) =~= self.values@);
        found
    }

    /// Get a string value
    pub fn get_string(&self, index: usize) -> (r: Option<String>)
        ensures
            match r {
                Some(s) => string_at(*self, index as int) == Some(s@),
                None => string_at(*self, index as int) is None,
            },
    {
        if index >= self.values.len() {
            return None;
        }
        match &self.values[index] {
            IppValue::Text(s) => Some(s.clone()),
            _ => None,
        }
    }

    /// Get an integer value
    pub fn get_integer(&self, index: usize) -> (r: i32)
        ensures
            r == integer_at(*self, index as int),
    {
        if index >= self.values.len() {
            return 0;
        }
        match &self.values[index] {
            IppValue::Integer(v) => *v,
            _ => 0,
        }
    }

    /// Get a boolean value
    pub fn get_boolean(&self, index: usize) -> (r: bool)
        ensures
            r == boolean_at(*self, index as int),
    {
        if index >= self.values.len() {
            return false;
        }
        match &self.values[index] {
            IppValue::Boolean(v) => *v,
            _ => false,
        }
    }
}

impl IppCollection {
    /// Finds a member by name.
    ///
    /// Members carry no group tag of their own, so unlike
    /// [`IppResponse::find_attribute`] there is nothing to filter on. Check the
    /// returned attribute's [`IppAttribute::value_tag`] before reading it.
    pub fn find(&self, name: &str) -> (r: Option<&IppAttribute>)
        ensures
            match r {
                Some(a) => first_selected(self.attributes@, name@, None) == Some(*a),
                None => first_selected(self.attributes@, name@, None) is None,
            },
    {
        find_first(&self.attributes, name, None)
    }

    /// Reads a single-valued text-like member, rejecting the wrong type.
    ///
    /// Returns `None` when the member is absent, is not a text-like type, holds
    /// no usable value, or is empty after trimming — the cases a malformed peer
    /// produces. Multi-valued members yield their first value, because IPP
    /// permits a sender to repeat a member the receiver treats as single.
    pub fn text(&self, name: &str) -> (r: Option<String>)
        ensures
            match r {
                Some(s) => member_text(*self, name@) == Some(s@),
                None => member_text(*self, name@) is None,
            },
    {
        let attr = match self.find(name) {
            Some(a) => a,
            None => return None,
        };
        let tag = attr.value_tag();
        if !tag.is_text_like() && tag != IppValueTag::Uri {
            return None;
        }
        let value = match attr.get_string(0) {
            Some(v) => v,
            None => return None,
        };
        let trimmed = trim_white_space(value.as_str());
        if trimmed.as_str().is_empty() {
            None
        } else {
            Some(trimmed)
        }
    }
}

impl IppResponse {
    /// Get the status code from the response
    pub fn status(&self) -> (r: IppStatus)
        ensures
            r == status_from_code(self.status_code),
    {
        IppStatus::from_code(self.status_code)
    }

    /// Returns the raw status code exactly as the peer sent it.
    ///
    /// [`IppResponse::status`] folds codes this crate does not model into
    /// [`IppStatus::ErrorInternalError`]; this keeps the value as the peer sent it, for
    /// diagnostics.
    pub fn status_code(&self) -> (r: u16)
        ensures
            r == self.status_code as u16,
    {
        self.status_code as u16
    }

    /// Check if the response indicates success
    pub fn is_successful(&self) -> (r: bool)
        ensures
            r == successful(status_from_code(self.status_code)),
    {
        self.status().is_successful()
    }

    /// Find an attribute by name, optionally restricted to one attribute group.
    ///
    /// `group` filters on the group the attribute arrived in — `Some(IppTag::System)`
    /// matches only System-group attributes. Passing `None` accepts any group.
    /// Names match as libcups matches them, ASCII letters in either case
    /// (see [`attr_named`]).
    pub fn find_attribute(&self, name: &str, group: Option<IppTag>) -> (r: Option<&IppAttribute>)
        ensures
            match r {
                Some(a) => first_selected(self.attributes@, name@, group) == Some(*a),
                None => first_selected(self.attributes@, name@, group) is None,
            },
    {
        find_first(&self.attributes, name, group)
    }

    /// Returns every attribute with this name, in the order the peer sent them.
    ///
    /// IPP allows a name to repeat within a message, and PAPPL relies on that:
    /// `PAPPL-Find-Devices` reports one `smi55357-device-col` per device. Using
    /// [`IppResponse::find_attribute`] would silently see only the first one.
    pub fn attributes_named(&self, name: &str) -> (r: Vec<&IppAttribute>)
        ensures
            r@.map_values(|a: &IppAttribute| *a) == attributes_named_in(self.attributes@, name@),
    {
        let mut found: Vec<&IppAttribute> = Vec::new();
        if nul_position(name).is_some() {
            assert(found@.map_values(|a: &IppAttribute| *a) =~= Seq::<IppAttribute>::empty());
            return found;
        }
        let ghost p = named(name@);
        let n = self.attributes.len();
        let mut i: usize = 0;
        while i < n
            invariant
                n == self.attributes@.len(),
                i <= n,
                p == named(name@),
                found@.map_values(|a: &IppAttribute| *a) == self.attributes@.take(i as int).filter(p),
            decreases n - i,
        {
            let a = &self.attributes[i];
            let ghost before = found@;
            proof {
                lemma_filter_step(self.attributes@, p, i as int);
            }
            if has_name(a, name) {
                found.push(a);
                assert(found@.map_values(|a: &IppAttribute| *a) =~= before.map_values(
                    |a: &IppAttribute| *a,
                ).push(*a));
            }
            i = i + 1;
        }
        assert(self.attributes@.take(n as int) =~= self.attributes@);
        found
    }

    /// Get all attributes in the response
    pub fn attributes(&self) -> (r: Vec<&IppAttribute>)
        ensures
            r@.map_values(|a: &IppAttribute| *a) == self.attributes@,
    {
        let mut all: Vec<&IppAttribute> = Vec::new();
        let n = self.attributes.len();
        let mut i: usize = 0;
        while i < n
            invariant
                n == self.attributes@.len(),
                i <= n,
                all@.len() == i,
                all@.map_values(|a: &IppAttribute| *a) == self.attributes@.take(i as int),
            decreases n - i,
        {
            let ghost before = all@;
            all.push(&self.attributes[i]);
            assert forall|j: int| 0 <= j < i implies *all@[j] == self.attributes@[j] by {
                assert(all@[j] == before[j]);
                assert(before.map_values(|a: &IppAttribute| *a)[j] == self.attributes@.take(i as int)[j]);
            }
            assert(all@.map_values(|a: &IppAttribute| *a) =~= self.attributes@.take(i + 1));
            i = i + 1;
        }
        assert(self.attributes@.take(n as int) =~= self.attributes@);
        all
    }
}

/// `a` is a single-valued attribute named `name` in `group`, with value tag
/// `tag` and the string `value`.
pub open spec fn string_attribute(a: IppAttribute, group: IppTag, tag: IppValueTag, name: Seq<char>, value: Seq<char>) -> bool {
    &&& attr_named_exactly(a, name)
    &&& a.group == group_code(group)
    &&& a.value_tag == value_tag_code(tag)
    &&& a.values@.len() == 1
    &&& a.values@[0] matches IppValue::Text(s) && s@ == value
}

/// `a` is an attribute named `name` in `group`, with value tag `tag` and the
/// strings `values`, in order.
pub open spec fn strings_attribute(a: IppAttribute, group: IppTag, tag: IppValueTag, name: Seq<char>, values: Seq<Seq<char>>) -> bool {
    &&& attr_named_exactly(a, name)
    &&& a.group == group_code(group)
    &&& a.value_tag == value_tag_code(tag)
    &&& a.values@.len() == values.len()
    &&& forall|i: int| 0 <= i < values.len() ==> (#[trigger] a.values@[i] matches IppValue::Text(s) && s@ == values[i])
}

/// `a` is a single-valued attribute named `name` in `group`, with value tag
/// `tag` and the integer `value`.
pub open spec fn integer_attribute(a: IppAttribute, group: IppTag, tag: IppValueTag, name: Seq<char>, value: i32) -> bool {
    &&& attr_named_exactly(a, name)
    &&& a.group == group_code(group)
    &&& a.value_tag == value_tag_code(tag)
    &&& a.values@ == seq![IppValue::Integer(value)]
}

/// `a` is a single-valued boolean attribute named `name` in `group` holding
/// `value`.
pub open spec fn boolean_attribute(a: IppAttribute, group: IppTag, name: Seq<char>, value: bool) -> bool {
    &&& attr_named_exactly(a, name)
    &&& a.group == group_code(group)
    &&& a.value_tag == value_tag_code(IppValueTag::Boolean)
    &&& a.values@ == seq![IppValue::Boolean(value)]
}

/// The first zero byte among `strings`: the index of the string and the
/// byte position within it.
pub open spec fn first_nul_among(strings: Seq<Seq<char>>) -> Option<(int, int)> {
    if exists|i: int| 0 <= i < strings.len() && has_nul(encode_utf8(#[trigger] strings[i])) {
        let i = choose|i: int| 0 <= i < strings.len() && has_nul(encode_utf8(#[trigger] strings[i]))
            && forall|j: int| 0 <= j < i ==> !has_nul(encode_utf8(#[trigger] strings[j]));
        Some((i, crate::text::first_nul(encode_utf8(strings[i])).unwrap()))
    } else {
        None
    }
}

/// libcups takes a value tag for string values when, with its high bit
/// cleared, it is `textWithLanguage`, `nameWithLanguage`, or one of the codes
/// from `text` to `mimeMediaType`.
pub open spec fn string_tag_code(code: i32) -> bool {
    let c = code & 0x7fff_ffffi32;
    c == IPP_TAG_TEXTLANG || c == IPP_TAG_NAMELANG || (IPP_TAG_TEXT <= c && c <= IPP_TAG_MIMETYPE)
}

/// libcups takes a value tag for integer values when, with its high bit
/// cleared, it is `integer` or `enum`.
pub open spec fn integer_tag_code(code: i32) -> bool {
    let c = code & 0x7fff_ffffi32;
    c == IPP_TAG_INTEGER || c == IPP_TAG_ENUM
}

/// Whether libcups takes `tag` for string values.
fn takes_strings(tag: IppValueTag) -> (r: bool)
    ensures
        r == string_tag_code(value_tag_code(tag)),
{
    let code: i32 = tag.into();
    let c = code & 0x7fff_ffffi32;
    c == IPP_TAG_TEXTLANG || c == IPP_TAG_NAMELANG || (IPP_TAG_TEXT <= c && c <= IPP_TAG_MIMETYPE)
}

/// Whether libcups takes `tag` for integer values.
fn takes_integers(tag: IppValueTag) -> (r: bool)
    ensures
        r == integer_tag_code(value_tag_code(tag)),
{
    let code: i32 = tag.into();
    let c = code & 0x7fff_ffffi32;
    c == IPP_TAG_INTEGER || c == IPP_TAG_ENUM
}

/// The message of an attribute of kind `kind` that could not be added.
pub open spec fn add_failure_message(kind: Seq<char>, name: Seq<char>) -> Seq<char> {
    "Failed to add "@ + kind + " attribute '"@ + name + "'"@
}

/// `r` is the refusal of an attribute of kind `kind` named `name`.
pub open spec fn add_refused(r: Result<(), Error>, kind: Seq<char>, name: Seq<char>) -> bool {
    r matches Err(Error::UnsupportedFeature(m)) && m@ == add_failure_message(kind, name)
}

/// The refusal of an attribute of kind `kind` named `name`.
fn add_failure(kind: &str, name: &str) -> (r: Result<(), Error>)
    ensures
        add_refused(r, kind@, name@),
{
    let mut message = String::from_str("Failed to add ");
    message.append(kind);
    message.append(" attribute '");
    message.append(name);
    message.append("'");
    proof {
        reveal_strlit("Failed to add ");
        reveal_strlit(" attribute '");
        reveal_strlit("'");
    }
    Err(Error::UnsupportedFeature(message))
}

impl IppRequest {
    /// Create a new IPP request
    pub fn new(operation: IppOperation) -> (r: Result<IppRequest, Error>)
        ensures
            r matches Ok(req) && req.operation == operation && req.attributes@.len() == 0,
    {
        Ok(IppRequest { operation, attributes: Vec::new() })
    }

    /// Add a string attribute
    ///
    /// Fails, leaving the request as it was, when the name or the value holds
    /// a zero byte, or when libcups does not take `value_tag` for strings.
    pub fn add_string(&mut self, group: IppTag, value_tag: IppValueTag, name: &str, value: &str) -> (r: Result<(), Error>)
        ensures
            final(self).operation == old(self).operation,
            crate::text::first_nul(name.spec_bytes()) is None && crate::text::first_nul(value.spec_bytes()) is None
                && (value_tag_code(value_tag) == 0x35 || value_tag_code(value_tag) == 0x36 || 0x41
                <= value_tag_code(value_tag) <= 0x49) ==> {
                &&& r is Ok
                &&& final(self).attributes@ == old(self).attributes@.push(final(self).attributes@.last())
                &&& string_attribute(final(self).attributes@.last(), group, value_tag, name@, value@)
            },
            match crate::text::first_nul(name.spec_bytes()) {
                Some(p) => r matches Err(Error::InteriorNul(q)) && q == p
                    && final(self).attributes@ == old(self).attributes@,
                None => match crate::text::first_nul(value.spec_bytes()) {
                    Some(p) => r matches Err(Error::InteriorNul(q)) && q == p
                        && final(self).attributes@ == old(self).attributes@,
                    None => if !string_tag_code(value_tag_code(value_tag)) {
                        add_refused(r, "string"@, name@) && final(self).attributes@ == old(self).attributes@
                    } else {
                        &&& r is Ok
                        &&& final(self).attributes@.len() == old(self).attributes@.len() + 1
                        &&& final(self).attributes@.drop_last() == old(self).attributes@
                        &&& string_attribute(final(self).attributes@.last(), group, value_tag, name@, value@)
                    },
                },
            },
    {
        proof {
            lemma_value_tags_taken(value_tag_code(value_tag));
        }
        if let Some(p) = nul_position(name) {
            return Err(Error::InteriorNul(p));
        }
        if let Some(p) = nul_position(value) {
            return Err(Error::InteriorNul(p));
        }
        if !takes_strings(value_tag) {
            return add_failure("string", name);
        }
        let ghost before = self.attributes@;
        let mut values: Vec<IppValue> = Vec::new();
        values.push(IppValue::Text(value.to_owned()));
        self.attributes.push(IppAttribute {
            name: Some(name.to_owned()),
            group: group.into(),
            value_tag: value_tag.into(),
            values,
        });
        assert(self.attributes@.drop_last() =~= before);
        Ok(())
    }

    /// Add an integer attribute
    ///
    /// Fails, leaving the request as it was, when the name holds a zero byte,
    /// or when libcups does not take `value_tag` for integers.
    pub fn add_integer(&mut self, group: IppTag, value_tag: IppValueTag, name: &str, value: i32) -> (r: Result<(), Error>)
        ensures
            final(self).operation == old(self).operation,
            crate::text::first_nul(name.spec_bytes()) is None && (value_tag_code(value_tag) == 0x21
                || value_tag_code(value_tag) == 0x23) ==> {
                &&& r is Ok
                &&& final(self).attributes@ == old(self).attributes@.push(final(self).attributes@.last())
                &&& integer_attribute(final(self).attributes@.last(), group, value_tag, name@, value)
            },
            match crate::text::first_nul(name.spec_bytes()) {
                Some(p) => r matches Err(Error::InteriorNul(q)) && q == p
                    && final(self).attributes@ == old(self).attributes@,
                None => if !integer_tag_code(value_tag_code(value_tag)) {
                    add_refused(r, "integer"@, name@) && final(self).attributes@ == old(self).attributes@
                } else {
                    &&& r is Ok
                    &&& final(self).attributes@.len() == old(self).attributes@.len() + 1
                    &&& final(self).attributes@.drop_last() == old(self).attributes@
                    &&& integer_attribute(final(self).attributes@.last(), group, value_tag, name@, value)
                },
            },
    {
        proof {
            lemma_value_tags_taken(value_tag_code(value_tag));
        }
        if let Some(p) = nul_position(name) {
            return Err(Error::InteriorNul(p));
        }
        if !takes_integers(value_tag) {
            return add_failure("integer", name);
        }
        let ghost before = self.attributes@;
        let mut values: Vec<IppValue> = Vec::new();
        values.push(IppValue::Integer(value));
        self.attributes.push(IppAttribute {
            name: Some(name.to_owned()),
            group: group.into(),
            value_tag: value_tag.into(),
            values,
        });
        assert(self.attributes@.drop_last() =~= before);
        assert(self.attributes@.last().values@ =~= seq![IppValue::Integer(value)]);
        Ok(())
    }

    /// Add a boolean attribute
    ///
    /// Fails, leaving the request as it was, when the name holds a zero byte.
    pub fn add_boolean(&mut self, group: IppTag, name: &str, value: bool) -> (r: Result<(), Error>)
        ensures
            final(self).operation == old(self).operation,
            match crate::text::first_nul(name.spec_bytes()) {
                Some(p) => r matches Err(Error::InteriorNul(q)) && q == p
                    && final(self).attributes@ == old(self).attributes@,
                None => {
                    &&& r is Ok
                    &&& final(self).attributes@.len() == old(self).attributes@.len() + 1
                    &&& final(self).attributes@.drop_last() == old(self).attributes@
                    &&& boolean_attribute(final(self).attributes@.last(), group, name@, value)
                },
            },
    {
        if let Some(p) = nul_position(name) {
            return Err(Error::InteriorNul(p));
        }
        let ghost before = self.attributes@;
        let mut values: Vec<IppValue> = Vec::new();
        values.push(IppValue::Boolean(value));
        self.attributes.push(IppAttribute {
            name: Some(name.to_owned()),
            group: group.into(),
            value_tag: IppValueTag::Boolean.into(),
            values,
        });
        assert(self.attributes@.drop_last() =~= before);
        assert(self.attributes@.last().values@ =~= seq![IppValue::Boolean(value)]);
        Ok(())
    }

    /// Add multiple string attributes
    ///
    /// Fails, leaving the request as it was, when the name or one of the
    /// values holds a zero byte (the error gives the position of the first
    /// such byte), or when there are no values or libcups does not take
    /// `value_tag` for strings.
    pub fn add_strings(&mut self, group: IppTag, value_tag: IppValueTag, name: &str, values: &[&str]) -> (r: Result<(), Error>)
        ensures
            final(self).operation == old(self).operation,
            crate::text::first_nul(name.spec_bytes()) is None && first_nul_among(
                values@.map_values(|v: &str| v@),
            ) is None && values@.len() > 0 && (value_tag_code(value_tag) == 0x35 || value_tag_code(
                value_tag,
            ) == 0x36 || 0x41 <= value_tag_code(value_tag) <= 0x49) ==> {
                &&& r is Ok
                &&& final(self).attributes@ == old(self).attributes@.push(final(self).attributes@.last())
                &&& strings_attribute(
                    final(self).attributes@.last(),
                    group,
                    value_tag,
                    name@,
                    values@.map_values(|v: &str| v@),
                )
            },
            match crate::text::first_nul(name.spec_bytes()) {
                Some(p) => r matches Err(Error::InteriorNul(q)) && q == p
                    && final(self).attributes@ == old(self).attributes@,
                None => match first_nul_among(values@.map_values(|v: &str| v@)) {
                    Some((_, p)) => r matches Err(Error::InteriorNul(q)) && q == p
                        && final(self).attributes@ == old(self).attributes@,
                    None => if !string_tag_code(value_tag_code(value_tag)) || values@.len() == 0 {
                        add_refused(r, "string array"@, name@) && final(self).attributes@ == old(self).attributes@
                    } else {
                        &&& r is Ok
                        &&& final(self).attributes@.len() == old(self).attributes@.len() + 1
                        &&& final(self).attributes@.drop_last() == old(self).attributes@
                        &&& strings_attribute(final(self).attributes@.last(), group, value_tag, name@, values@.map_values(|v: &str| v@))
                    },
                },
            },
    {
        proof {
            lemma_value_tags_taken(value_tag_code(value_tag));
        }
        if let Some(p) = nul_position(name) {
            return Err(Error::InteriorNul(p));
        }
        let ghost strs = values@.map_values(|v: &str| v@);
        let mut texts: Vec<IppValue> = Vec::new();
        let mut i: usize = 0;
        while i < values.len()
            invariant
                i <= values@.len(),
                strs == values@.map_values(|v: &str| v@),
                crate::text::first_nul(name.spec_bytes()) is None,
                texts@.len() == i,
                forall|j: int| 0 <= j < i ==> !has_nul(encode_utf8(#[trigger] strs[j])),
                forall|j: int| 0 <= j < i ==> (#[trigger] texts@[j] matches IppValue::Text(s) && s@ == strs[j]),
            decreases values@.len() - i,
        {
            if let Some(p) = nul_position(values[i]) {
                proof {
                    let k = i as int;
                    assert(strs[k] == values@[k]@);
                    assert(values@[k].spec_bytes() == encode_utf8(strs[k]));
                    assert(has_nul(encode_utf8(strs[k])));
                    let c = choose|c: int| 0 <= c < strs.len() && has_nul(encode_utf8(#[trigger] strs[c]))
                        && forall|j: int| 0 <= j < c ==> !has_nul(encode_utf8(#[trigger] strs[j]));
                    assert(0 <= k < strs.len() && has_nul(encode_utf8(strs[k]))
                        && forall|j: int| 0 <= j < k ==> !has_nul(encode_utf8(#[trigger] strs[j])));
                    if c < k {
                        assert(!has_nul(encode_utf8(strs[c])));
                    }
                    if k < c {
                        assert(!has_nul(encode_utf8(strs[k])));
                    }
                    assert(first_nul_among(strs) == Some((k, p as int)));
                }
                return Err(Error::InteriorNul(p));
            }
            let ghost before = texts@;
            texts.push(IppValue::Text(values[i].to_owned()));
            assert forall|j: int| 0 <= j < i + 1 implies (#[trigger] texts@[j] matches IppValue::Text(s) && s@ == strs[j]) by {
                if j < i {
                    assert(texts@[j] == before[j]);
                }
            }
            i = i + 1;
        }
        if !takes_strings(value_tag) || values.len() == 0 {
            return add_failure("string array", name);
        }
        let ghost before = self.attributes@;
        self.attributes.push(IppAttribute {
            name: Some(name.to_owned()),
            group: group.into(),
            value_tag: value_tag.into(),
            values: texts,
        });
        assert(self.attributes@.drop_last() =~= before);
        Ok(())
    }
}

proof fn lemma_filter_filter<A>(s: Seq<A>, p: spec_fn(A) -> bool, q: spec_fn(A) -> bool)
    ensures
        s.filter(p).filter(q) == s.filter(|x: A| p(x) && q(x)),
    decreases s.len(),
{
    reveal(Seq::filter);
    if s.len() > 0 {
        lemma_filter_filter(s.drop_last(), p, q);
        if p(s.last()) {
            assert(s.filter(p).drop_last() =~= s.drop_last().filter(p));
            assert(s.filter(p).last() == s.last());
        }
    }
}

/// Looking an attribute up in any group finds the first of the attributes
/// with that name; looking it up in one group finds the first of those that
/// arrived in that group.
pub proof fn lemma_find_is_first_named(attrs: Seq<IppAttribute>, name: Seq<char>, group: Option<IppTag>)
    ensures
        first_selected(attrs, name, group) == ({
            let in_group = attributes_named_in(attrs, name).filter(|a: IppAttribute| attr_in_group(a, group));
            if in_group.len() > 0 {
                Some(in_group[0])
            } else {
                None
            }
        }),
        first_selected(attrs, name, None) == (if attributes_named_in(attrs, name).len() > 0 {
            Some(attributes_named_in(attrs, name)[0])
        } else {
            None
        }),
{
    let g = |a: IppAttribute| attr_in_group(a, group);
    lemma_filter_filter(attrs, named(name), g);
    assert((|x: IppAttribute| named(name)(x) && g(x)) =~= selected(name, group));
    let any = |a: IppAttribute| attr_in_group(a, None);
    lemma_filter_filter(attrs, named(name), any);
    assert((|x: IppAttribute| named(name)(x) && any(x)) =~= selected(name, None));
    assert(attrs.filter(named(name)).filter(any) =~= attrs.filter(named(name))) by {
        lemma_filter_all(attrs.filter(named(name)), any);
    }
}

proof fn lemma_filter_all<A>(s: Seq<A>, p: spec_fn(A) -> bool)
    requires
        forall|x: A| #[trigger] p(x),
    ensures
        s.filter(p) == s,
    decreases s.len(),
{
    reveal(Seq::filter);
    if s.len() > 0 {
        lemma_filter_all(s.drop_last(), p);
        assert(s.drop_last().push(s.last()) =~= s);
    }
}

/// Every attribute [`IppResponse::attributes_named`] returns carries the name
/// asked for, and every attribute carrying it is returned.
pub proof fn lemma_attributes_named_exact(attrs: Seq<IppAttribute>, name: Seq<char>)
    requires
        c_name(name),
    ensures
        forall|i: int| 0 <= i < attributes_named_in(attrs, name).len() ==> attr_named(
            #[trigger] attributes_named_in(attrs, name)[i],
            name,
        ),
        forall|i: int| 0 <= i < attrs.len() && attr_named(attrs[i], name)
            ==> #[trigger] attributes_named_in(attrs, name).contains(attrs[i]),
        attributes_named_in(attrs, name).len() <= attrs.len(),
{
    broadcast use vstd::seq_lib::group_filter_ensures;

    assert forall|i: int| 0 <= i < attributes_named_in(attrs, name).len() implies attr_named(
        #[trigger] attributes_named_in(attrs, name)[i],
        name,
    ) by {
        assert(named(name)(attrs.filter(named(name))[i]));
    }
    assert forall|i: int| 0 <= i < attrs.len() && attr_named(attrs[i], name)
        implies #[trigger] attributes_named_in(attrs, name).contains(attrs[i]) by {
        assert(named(name)(attrs[i]));
    }
}

proof fn lemma_all_collections(vals: Seq<IppValue>)
    requires
        forall|i: int| 0 <= i < vals.len() ==> (#[trigger] vals[i]) is Collection,
    ensures
        collections_in(vals).len() == vals.len(),
        forall|i: int| 0 <= i < vals.len() ==> Some(#[trigger] collections_in(vals)[i])
            == value_collection(vals[i]),
    decreases vals.len(),
{
    if vals.len() > 0 {
        let f = |v: IppValue| value_collection(v);
        let init = vals.drop_last();
        assert forall|i: int| 0 <= i < init.len() implies (#[trigger] init[i]) is Collection by {
            assert(init[i] == vals[i]);
        }
        lemma_all_collections(init);
        assert(vals.last() is Collection);
        assert forall|i: int| 0 <= i < vals.len() implies Some(#[trigger] collections_in(vals)[i])
            == value_collection(vals[i]) by {
            if i < vals.len() - 1 {
                assert(collections_in(vals)[i] == collections_in(init)[i]);
                assert(init[i] == vals[i]);
            }
        }
    }
}

/// For a collection attribute whose values are all collections,
/// [`IppAttribute::collections`] lists exactly what
/// [`IppAttribute::get_collection`] gives for each index; for any other
/// attribute it lists nothing.
pub proof fn lemma_collections_match_indices(a: IppAttribute)
    ensures
        value_tag_from_code(a.value_tag) != IppValueTag::BeginCollection ==> collections_of(a).len()
            == 0,
        (value_tag_from_code(a.value_tag) == IppValueTag::BeginCollection && forall|i: int|
            0 <= i < a.values@.len() ==> (#[trigger] a.values@[i]) is Collection) ==> {
            &&& collections_of(a).len() == a.values@.len()
            &&& forall|i: int| 0 <= i < a.values@.len() ==> collection_at(a, i) == Some(
                #[trigger] collections_of(a)[i],
            )
        },
{
    if value_tag_from_code(a.value_tag) == IppValueTag::BeginCollection && forall|i: int|
        0 <= i < a.values@.len() ==> (#[trigger] a.values@[i]) is Collection {
        lemma_all_collections(a.values@);
    }
}

/// The text read from a collection member is never blank and carries no
/// white space at either end.
pub proof fn lemma_member_text_trimmed(c: IppCollection, name: Seq<char>)
    ensures
        member_text(c, name) matches Some(t) ==> {
            &&& t.len() > 0
            &&& !white_space(t[0])
            &&& !white_space(t.last())
        },
{
    if let Some(t) = member_text(c, name) {
        let a = first_selected(c.attributes@, name, None).unwrap();
        lemma_trim_ws_edges(string_at(a, 0).unwrap());
    }
}

/// What a request's builder writes reads back unchanged: the group, the value
/// tag (when it is a named tag, or a code no named tag uses) and the value.
pub proof fn lemma_added_attribute_reads_back(
    a: IppAttribute,
    group: IppTag,
    tag: IppValueTag,
    name: Seq<char>,
    text: Seq<char>,
    integer: i32,
    boolean: bool,
)
    requires
        tag matches IppValueTag::Other(c) ==> forall|t: IppValueTag|
            !(t is Other) ==> value_tag_code(t) != c,
    ensures
        string_attribute(a, group, tag, name, text) ==> {
            &&& string_at(a, 0) == Some(text)
            &&& group_from_code(a.group) == Some(group)
            &&& value_tag_from_code(a.value_tag) == tag
        },
        integer_attribute(a, group, tag, name, integer) ==> {
            &&& integer_at(a, 0) == integer
            &&& group_from_code(a.group) == Some(group)
            &&& value_tag_from_code(a.value_tag) == tag
        },
        boolean_attribute(a, group, name, boolean) ==> {
            &&& boolean_at(a, 0) == boolean
            &&& group_from_code(a.group) == Some(group)
            &&& value_tag_from_code(a.value_tag) == IppValueTag::Boolean
        },
{
    crate::tags::lemma_group_code_round_trip(group);
    crate::tags::lemma_value_tag_round_trip(tag);
    crate::tags::lemma_value_tag_round_trip(IppValueTag::Boolean);
}

/// Names are matched whole: an attribute that
/// [`IppResponse::find_attribute`] or [`IppResponse::attributes_named`] gives
/// back carries a name exactly as long as the name asked for, equal to it up
/// to ASCII case. An attribute whose name only begins with the name asked for
/// is never found.
pub proof fn lemma_found_names_are_whole(attrs: Seq<IppAttribute>, name: Seq<char>, group: Option<IppTag>)
    ensures
        first_selected(attrs, name, group) is Some ==> {
            let a = first_selected(attrs, name, group).unwrap();
            &&& a.name is Some
            &&& a.name.unwrap()@.len() == name.len()
            &&& same_ignoring_ascii_case(a.name.unwrap()@, name)
        },
        forall|i: int| 0 <= i < attributes_named_in(attrs, name).len() ==> {
            let a = #[trigger] attributes_named_in(attrs, name)[i];
            a.name is Some && a.name.unwrap()@.len() == name.len()
        },
        forall|i: int| 0 <= i < attrs.len() && (#[trigger] attrs[i]).name is Some
            && attrs[i].name.unwrap()@.len() != name.len() ==> !attr_named(attrs[i], name),
{
    broadcast use vstd::seq_lib::group_filter_ensures;

    if let Some(a) = first_selected(attrs, name, group) {
        let found = attrs.filter(selected(name, group));
        assert(selected(name, group)(found[0]));
        lemma_ascii_case_match(a.name.unwrap()@, name);
    }
    assert forall|i: int| 0 <= i < attrs.len() && (#[trigger] attrs[i]).name is Some
        && attrs[i].name.unwrap()@.len() != name.len() implies !attr_named(attrs[i], name) by {
        lemma_ascii_case_match(attrs[i].name.unwrap()@, name);
    }
    assert forall|i: int| 0 <= i < attributes_named_in(attrs, name).len() implies {
        let a = #[trigger] attributes_named_in(attrs, name)[i];
        a.name is Some && a.name.unwrap()@.len() == name.len()
    } by {
        let a = attrs.filter(named(name))[i];
        assert(named(name)(a));
        lemma_ascii_case_match(a.name.unwrap()@, name);
    }
}

/// libcups takes for string values exactly the value tags
/// `textWithLanguage` (0x35), `nameWithLanguage` (0x36) and `text` (0x41)
/// to `mimeMediaType` (0x49), `nameWithoutLanguage` (0x42) among them; for
/// integer values exactly `integer` (0x21) and `enum` (0x23). The high bit of
/// a code plays no part.
pub proof fn lemma_value_tags_taken(code: i32)
    ensures
        0 <= code ==> (string_tag_code(code) <==> (code == 0x35 || code == 0x36 || 0x41 <= code
            <= 0x49)),
        0 <= code ==> (integer_tag_code(code) <==> (code == 0x21 || code == 0x23)),
        string_tag_code(code) == string_tag_code(code & 0x7fff_ffffi32),
        integer_tag_code(code) == integer_tag_code(code & 0x7fff_ffffi32),
{
    assert(0 <= code ==> code & 0x7fff_ffffi32 == code) by (bit_vector);
    assert((code & 0x7fff_ffffi32) & 0x7fff_ffffi32 == code & 0x7fff_ffffi32) by (bit_vector);
}

/// A collection member reads back through [`IppCollection::text`] as its
/// first string, trimmed of white space, when its value tag is
/// `textWithLanguage` (0x35), `nameWithLanguage` (0x36),
/// `textWithoutLanguage` (0x41), `nameWithoutLanguage` (0x42), `keyword`
/// (0x44) or `uri` (0x45) and that string is not blank; a member of any other
/// value tag reads as nothing.
pub proof fn lemma_member_text_by_tag(c: IppCollection, name: Seq<char>)
    ensures
        first_selected(c.attributes@, name, None) is Some ==> {
            let a = first_selected(c.attributes@, name, None).unwrap();
            let code = a.value_tag;
            let text_code = code == 0x35 || code == 0x36 || code == 0x41 || code == 0x42 || code
                == 0x44 || code == 0x45;
            &&& !text_code ==> member_text(c, name) is None
            &&& text_code && string_at(a, 0) is Some && trim_ws(string_at(a, 0).unwrap()).len() > 0
                ==> member_text(c, name) == Some(trim_ws(string_at(a, 0).unwrap()))
        },
        first_selected(c.attributes@, name, None) is None ==> member_text(c, name) is None,
{
    if let Some(a) = first_selected(c.attributes@, name, None) {
        lemma_text_like_codes(a.value_tag);
    }
}

} // verus!
