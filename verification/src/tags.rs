//! IPP attribute-group tags, value tags, operation codes and status codes,
//! with the numeric codes that travel on the wire.

use vstd::prelude::*;

verus! {

pub const IPP_TAG_ZERO: i32 = 0x00;
pub const IPP_TAG_OPERATION: i32 = 0x01;
pub const IPP_TAG_JOB: i32 = 0x02;
pub const IPP_TAG_END: i32 = 0x03;
pub const IPP_TAG_PRINTER: i32 = 0x04;
pub const IPP_TAG_UNSUPPORTED_GROUP: i32 = 0x05;
pub const IPP_TAG_SUBSCRIPTION: i32 = 0x06;
pub const IPP_TAG_EVENT_NOTIFICATION: i32 = 0x07;
pub const IPP_TAG_RESOURCE: i32 = 0x08;
pub const IPP_TAG_DOCUMENT: i32 = 0x09;
pub const IPP_TAG_SYSTEM: i32 = 0x0a;
pub const IPP_TAG_UNSUPPORTED_VALUE: i32 = 0x10;
pub const IPP_TAG_DEFAULT: i32 = 0x11;
pub const IPP_TAG_UNKNOWN: i32 = 0x12;
pub const IPP_TAG_NOVALUE: i32 = 0x13;
pub const IPP_TAG_NOTSETTABLE: i32 = 0x15;
pub const IPP_TAG_DELETEATTR: i32 = 0x16;
pub const IPP_TAG_ADMINDEFINE: i32 = 0x17;
pub const IPP_TAG_INTEGER: i32 = 0x21;
pub const IPP_TAG_BOOLEAN: i32 = 0x22;
pub const IPP_TAG_ENUM: i32 = 0x23;
pub const IPP_TAG_STRING: i32 = 0x30;
pub const IPP_TAG_DATE: i32 = 0x31;
pub const IPP_TAG_RESOLUTION: i32 = 0x32;
pub const IPP_TAG_RANGE: i32 = 0x33;
pub const IPP_TAG_BEGIN_COLLECTION: i32 = 0x34;
pub const IPP_TAG_TEXTLANG: i32 = 0x35;
pub const IPP_TAG_NAMELANG: i32 = 0x36;
pub const IPP_TAG_END_COLLECTION: i32 = 0x37;
pub const IPP_TAG_TEXT: i32 = 0x41;
pub const IPP_TAG_NAME: i32 = 0x42;
pub const IPP_TAG_KEYWORD: i32 = 0x44;
pub const IPP_TAG_URI: i32 = 0x45;
pub const IPP_TAG_URISCHEME: i32 = 0x46;
pub const IPP_TAG_CHARSET: i32 = 0x47;
pub const IPP_TAG_LANGUAGE: i32 = 0x48;
pub const IPP_TAG_MIMETYPE: i32 = 0x49;
pub const IPP_TAG_MEMBERNAME: i32 = 0x4a;

/// IPP attribute group tags
///
/// These tags define which group an IPP attribute belongs to in an IPP message.
#[derive(Debug, Clone, Copy, PartialEq, Eq, Structural)]
pub enum IppTag {
    Zero,
    Operation,
    Job,
    Printer,
    Subscription,
    EventNotification,
    Resource,
    Document,
    /// System group, used by the IPP System Service (`/ipp/system`).
    System,
    UnsupportedGroup,
}

/// The wire code of a group tag.
pub open spec fn group_code(tag: IppTag) -> i32 {
    match tag {
        IppTag::Zero => IPP_TAG_ZERO,
        IppTag::Operation => IPP_TAG_OPERATION,
        IppTag::Job => IPP_TAG_JOB,
        IppTag::Printer => IPP_TAG_PRINTER,
        IppTag::Subscription => IPP_TAG_SUBSCRIPTION,
        IppTag::EventNotification => IPP_TAG_EVENT_NOTIFICATION,
        IppTag::Resource => IPP_TAG_RESOURCE,
        IppTag::Document => IPP_TAG_DOCUMENT,
        IppTag::System => IPP_TAG_SYSTEM,
        IppTag::UnsupportedGroup => IPP_TAG_UNSUPPORTED_GROUP,
    }
}

/// The group tag whose wire code is `code`, if any.
pub open spec fn group_from_code(code: i32) -> Option<IppTag> {
    if exists|t: IppTag| group_code(t) == code {
        Some(choose|t: IppTag| group_code(t) == code)
    } else {
        None
    }
}

impl From<IppTag> for i32 {
    fn from(tag: IppTag) -> (r: i32) {
        match tag {
            IppTag::Zero => IPP_TAG_ZERO,
            IppTag::Operation => IPP_TAG_OPERATION,
            IppTag::Job => IPP_TAG_JOB,
            IppTag::Printer => IPP_TAG_PRINTER,
            IppTag::Subscription => IPP_TAG_SUBSCRIPTION,
            IppTag::EventNotification => IPP_TAG_EVENT_NOTIFICATION,
            IppTag::Resource => IPP_TAG_RESOURCE,
            IppTag::Document => IPP_TAG_DOCUMENT,
            IppTag::System => IPP_TAG_SYSTEM,
            IppTag::UnsupportedGroup => IPP_TAG_UNSUPPORTED_GROUP,
        }
    }
}

impl vstd::std_specs::convert::FromSpecImpl<IppTag> for i32 {
    open spec fn obeys_from_spec() -> bool {
        true
    }

    open spec fn from_spec(tag: IppTag) -> i32 {
        group_code(tag)
    }
}

impl IppTag {
    /// Converts a raw group tag reported by libcups back into a known group.
    ///
    /// Returns `None` for values that are not group tags, so callers can reject
    /// an attribute that arrived in an unexpected part of a message instead of
    /// guessing.
    pub fn from_code(code: i32) -> (r: Option<IppTag>)
        ensures
            r matches Some(t) ==> group_code(t) == code,
            r is None ==> forall|t: IppTag| group_code(t) != code,
            r == group_from_code(code),
    {
        let r = if code == IPP_TAG_ZERO {
            Some(IppTag::Zero)
        } else if code == IPP_TAG_OPERATION {
            Some(IppTag::Operation)
        } else if code == IPP_TAG_JOB {
            Some(IppTag::Job)
        } else if code == IPP_TAG_PRINTER {
            Some(IppTag::Printer)
        } else if code == IPP_TAG_SUBSCRIPTION {
            Some(IppTag::Subscription)
        } else if code == IPP_TAG_EVENT_NOTIFICATION {
            Some(IppTag::EventNotification)
        } else if code == IPP_TAG_RESOURCE {
            Some(IppTag::Resource)
        } else if code == IPP_TAG_DOCUMENT {
            Some(IppTag::Document)
        } else if code == IPP_TAG_SYSTEM {
            Some(IppTag::System)
        } else if code == IPP_TAG_UNSUPPORTED_GROUP {
            Some(IppTag::UnsupportedGroup)
        } else {
            None
        };
        proof {
            lemma_group_from_code_inverse(code);
            if let Some(t) = r {
                lemma_group_code_round_trip(t);
            }
        }
        r
    }
}

/// Distinct groups have distinct wire codes.
pub proof fn lemma_group_code_injective(a: IppTag, b: IppTag)
    ensures
        group_code(a) == group_code(b) ==> a == b,
{
}

/// Reading back the wire code of a group gives the same group.
pub proof fn lemma_group_code_round_trip(tag: IppTag)
    ensures
        group_from_code(group_code(tag)) == Some(tag),
{
    let c = group_code(tag);
    assert(exists|t: IppTag| group_code(t) == c);
    let t = choose|t: IppTag| group_code(t) == c;
    lemma_group_code_injective(t, tag);
}

/// A code that reads as a group is that group's wire code.
pub proof fn lemma_group_from_code_inverse(code: i32)
    ensures
        group_from_code(code) matches Some(t) ==> group_code(t) == code,
        group_from_code(code) is None ==> forall|t: IppTag| group_code(t) != code,
{
}


/// IPP value tags
///
/// These tags define the type of value an IPP attribute contains. The set covers
/// both the types that can be written into a request and the out-of-band and
/// structured types that only ever arrive in a response, so
/// [`IppAttribute::value_tag`] can report what a peer actually sent.
#[derive(Debug, Clone, Copy, PartialEq, Eq, Structural)]
pub enum IppValueTag {
    Integer,
    Boolean,
    Enum,
    String,
    Text,
    Name,
    Keyword,
    Uri,
    Charset,
    Language,
    MimeType,
    /// `textWithLanguage`, the localized form of [`IppValueTag::Text`].
    TextLang,
    /// `nameWithLanguage`, the localized form of [`IppValueTag::Name`].
    NameLang,
    UriScheme,
    Date,
    Resolution,
    Range,
    /// Start of a collection value; read the members with
    /// [`IppAttribute::get_collection`].
    BeginCollection,
    EndCollection,
    MemberName,
    UnsupportedValue,
    Default,
    Unknown,
    NoValue,
    NotSettable,
    DeleteAttr,
    AdminDefine,
    /// A tag this crate does not model, preserved so unexpected values can be
    /// reported rather than mistaken for a type we understand.
    Other(i32),
}

/// The wire code of a value tag.
pub open spec fn value_tag_code(tag: IppValueTag) -> i32 {
    match tag {
        IppValueTag::Integer => IPP_TAG_INTEGER,
        IppValueTag::Boolean => IPP_TAG_BOOLEAN,
        IppValueTag::Enum => IPP_TAG_ENUM,
        IppValueTag::String => IPP_TAG_STRING,
        IppValueTag::Text => IPP_TAG_TEXT,
        IppValueTag::Name => IPP_TAG_NAME,
        IppValueTag::Keyword => IPP_TAG_KEYWORD,
        IppValueTag::Uri => IPP_TAG_URI,
        IppValueTag::Charset => IPP_TAG_CHARSET,
        IppValueTag::Language => IPP_TAG_LANGUAGE,
        IppValueTag::MimeType => IPP_TAG_MIMETYPE,
        IppValueTag::TextLang => IPP_TAG_TEXTLANG,
        IppValueTag::NameLang => IPP_TAG_NAMELANG,
        IppValueTag::UriScheme => IPP_TAG_URISCHEME,
        IppValueTag::Date => IPP_TAG_DATE,
        IppValueTag::Resolution => IPP_TAG_RESOLUTION,
        IppValueTag::Range => IPP_TAG_RANGE,
        IppValueTag::BeginCollection => IPP_TAG_BEGIN_COLLECTION,
        IppValueTag::EndCollection => IPP_TAG_END_COLLECTION,
        IppValueTag::MemberName => IPP_TAG_MEMBERNAME,
        IppValueTag::UnsupportedValue => IPP_TAG_UNSUPPORTED_VALUE,
        IppValueTag::Default => IPP_TAG_DEFAULT,
        IppValueTag::Unknown => IPP_TAG_UNKNOWN,
        IppValueTag::NoValue => IPP_TAG_NOVALUE,
        IppValueTag::NotSettable => IPP_TAG_NOTSETTABLE,
        IppValueTag::DeleteAttr => IPP_TAG_DELETEATTR,
        IppValueTag::AdminDefine => IPP_TAG_ADMINDEFINE,
        IppValueTag::Other(code) => code,
    }
}

/// The value tag that a wire code reads as: the named tag with that code if
/// there is one, otherwise the code kept as it is.
pub open spec fn value_tag_from_code(code: i32) -> IppValueTag {
    if exists|t: IppValueTag| !(t is Other) && value_tag_code(t) == code {
        choose|t: IppValueTag| !(t is Other) && value_tag_code(t) == code
    } else {
        IppValueTag::Other(code)
    }
}

/// The text-like string types: the plain and the with-language forms.
pub open spec fn text_like(tag: IppValueTag) -> bool {
    matches!(tag, IppValueTag::Text | IppValueTag::TextLang | IppValueTag::Name
        | IppValueTag::NameLang | IppValueTag::Keyword)
}

impl From<IppValueTag> for i32 {
    fn from(tag: IppValueTag) -> (r: i32) {
        match tag {
            IppValueTag::Integer => IPP_TAG_INTEGER,
            IppValueTag::Boolean => IPP_TAG_BOOLEAN,
            IppValueTag::Enum => IPP_TAG_ENUM,
            IppValueTag::String => IPP_TAG_STRING,
            IppValueTag::Text => IPP_TAG_TEXT,
            IppValueTag::Name => IPP_TAG_NAME,
            IppValueTag::Keyword => IPP_TAG_KEYWORD,
            IppValueTag::Uri => IPP_TAG_URI,
            IppValueTag::Charset => IPP_TAG_CHARSET,
            IppValueTag::Language => IPP_TAG_LANGUAGE,
            IppValueTag::MimeType => IPP_TAG_MIMETYPE,
            IppValueTag::TextLang => IPP_TAG_TEXTLANG,
            IppValueTag::NameLang => IPP_TAG_NAMELANG,
            IppValueTag::UriScheme => IPP_TAG_URISCHEME,
            IppValueTag::Date => IPP_TAG_DATE,
            IppValueTag::Resolution => IPP_TAG_RESOLUTION,
            IppValueTag::Range => IPP_TAG_RANGE,
            IppValueTag::BeginCollection => IPP_TAG_BEGIN_COLLECTION,
            IppValueTag::EndCollection => IPP_TAG_END_COLLECTION,
            IppValueTag::MemberName => IPP_TAG_MEMBERNAME,
            IppValueTag::UnsupportedValue => IPP_TAG_UNSUPPORTED_VALUE,
            IppValueTag::Default => IPP_TAG_DEFAULT,
            IppValueTag::Unknown => IPP_TAG_UNKNOWN,
            IppValueTag::NoValue => IPP_TAG_NOVALUE,
            IppValueTag::NotSettable => IPP_TAG_NOTSETTABLE,
            IppValueTag::DeleteAttr => IPP_TAG_DELETEATTR,
            IppValueTag::AdminDefine => IPP_TAG_ADMINDEFINE,
            IppValueTag::Other(code) => code,
        }
    }
}

impl vstd::std_specs::convert::FromSpecImpl<IppValueTag> for i32 {
    open spec fn obeys_from_spec() -> bool {
        true
    }

    open spec fn from_spec(tag: IppValueTag) -> i32 {
        value_tag_code(tag)
    }
}

impl IppValueTag {
    /// Converts a raw value tag reported by libcups into a modelled tag.
    ///
    /// Unrecognized tags become [`IppValueTag::Other`] rather than an error, so a
    /// peer sending something unexpected can be diagnosed instead of crashing
    /// the caller.
    pub fn from_code(code: i32) -> (r: IppValueTag)
        ensures
            value_tag_code(r) == code,
            r is Other ==> forall|t: IppValueTag| !(t is Other) ==> value_tag_code(t) != code,
            r == value_tag_from_code(code),
    {
        let r = if code == IPP_TAG_INTEGER {
            IppValueTag::Integer
        } else if code == IPP_TAG_BOOLEAN {
            IppValueTag::Boolean
        } else if code == IPP_TAG_ENUM {
            IppValueTag::Enum
        } else if code == IPP_TAG_STRING {
            IppValueTag::String
        } else if code == IPP_TAG_TEXT {
            IppValueTag::Text
        } else if code == IPP_TAG_NAME {
            IppValueTag::Name
        } else if code == IPP_TAG_KEYWORD {
            IppValueTag::Keyword
        } else if code == IPP_TAG_URI {
            IppValueTag::Uri
        } else if code == IPP_TAG_CHARSET {
            IppValueTag::Charset
        } else if code == IPP_TAG_LANGUAGE {
            IppValueTag::Language
        } else if code == IPP_TAG_MIMETYPE {
            IppValueTag::MimeType
        } else if code == IPP_TAG_TEXTLANG {
            IppValueTag::TextLang
        } else if code == IPP_TAG_NAMELANG {
            IppValueTag::NameLang
        } else if code == IPP_TAG_URISCHEME {
            IppValueTag::UriScheme
        } else if code == IPP_TAG_DATE {
            IppValueTag::Date
        } else if code == IPP_TAG_RESOLUTION {
            IppValueTag::Resolution
        } else if code == IPP_TAG_RANGE {
            IppValueTag::Range
        } else if code == IPP_TAG_BEGIN_COLLECTION {
            IppValueTag::BeginCollection
        } else if code == IPP_TAG_END_COLLECTION {
            IppValueTag::EndCollection
        } else if code == IPP_TAG_MEMBERNAME {
            IppValueTag::MemberName
        } else if code == IPP_TAG_UNSUPPORTED_VALUE {
            IppValueTag::UnsupportedValue
        } else if code == IPP_TAG_DEFAULT {
            IppValueTag::Default
        } else if code == IPP_TAG_UNKNOWN {
            IppValueTag::Unknown
        } else if code == IPP_TAG_NOVALUE {
            IppValueTag::NoValue
        } else if code == IPP_TAG_NOTSETTABLE {
            IppValueTag::NotSettable
        } else if code == IPP_TAG_DELETEATTR {
            IppValueTag::DeleteAttr
        } else if code == IPP_TAG_ADMINDEFINE {
            IppValueTag::AdminDefine
        } else {
            IppValueTag::Other(code)
        };
        proof {
            lemma_value_tag_from_code_inverse(code);
            if !(r is Other) {
                lemma_value_tag_round_trip(r);
            }
        }
        r
    }

    /// Returns true when the value is a text-like string type.
    ///
    /// Both the plain and the with-language forms qualify, because a peer may
    /// send either for the same attribute.
    pub fn is_text_like(self) -> (r: bool)
        ensures
            r == text_like(self),
    {
        matches!(self, IppValueTag::Text | IppValueTag::TextLang | IppValueTag::Name
            | IppValueTag::NameLang | IppValueTag::Keyword)
    }
}

/// Distinct named value tags have distinct wire codes.
pub proof fn lemma_value_tag_code_injective(a: IppValueTag, b: IppValueTag)
    requires
        !(a is Other),
        !(b is Other),
    ensures
        value_tag_code(a) == value_tag_code(b) ==> a == b,
{
}

/// Reading back the wire code of a named value tag gives the same tag, and a
/// code kept as [`IppValueTag::Other`] reads back as itself when no named tag
/// uses it.
pub proof fn lemma_value_tag_round_trip(tag: IppValueTag)
    requires
        tag matches IppValueTag::Other(c) ==> forall|t: IppValueTag|
            !(t is Other) ==> value_tag_code(t) != c,
    ensures
        value_tag_from_code(value_tag_code(tag)) == tag,
{
    if !(tag is Other) {
        let c = value_tag_code(tag);
        assert(!(tag is Other) && value_tag_code(tag) == c);
        let t = choose|t: IppValueTag| !(t is Other) && value_tag_code(t) == c;
        lemma_value_tag_code_injective(t, tag);
    }
}

/// Every wire code survives being read as a value tag and written back.
pub proof fn lemma_value_tag_from_code_inverse(code: i32)
    ensures
        value_tag_code(value_tag_from_code(code)) == code,
        value_tag_from_code(code) is Other ==> forall|t: IppValueTag|
            !(t is Other) ==> value_tag_code(t) != code,
{
}

/// The group tags are read from the wire codes IPP assigns them: 0x01
/// operation, 0x02 job, 0x04 printer, 0x05 unsupported, 0x06 subscription,
/// 0x07 event notification, 0x08 resource, 0x09 document, 0x0a system, and
/// 0x00 for the zero tag. Every other code is no group tag.
pub proof fn lemma_group_wire_codes(code: i32)
    ensures
        group_from_code(code) == match code {
            0x00i32 => Some(IppTag::Zero),
            0x01i32 => Some(IppTag::Operation),
            0x02i32 => Some(IppTag::Job),
            0x04i32 => Some(IppTag::Printer),
            0x05i32 => Some(IppTag::UnsupportedGroup),
            0x06i32 => Some(IppTag::Subscription),
            0x07i32 => Some(IppTag::EventNotification),
            0x08i32 => Some(IppTag::Resource),
            0x09i32 => Some(IppTag::Document),
            0x0ai32 => Some(IppTag::System),
            _ => None,
        },
{
    lemma_group_from_code_inverse(code);
    if code == 0x00 {
        lemma_group_code_round_trip(IppTag::Zero);
    } else if code == 0x01 {
        lemma_group_code_round_trip(IppTag::Operation);
    } else if code == 0x02 {
        lemma_group_code_round_trip(IppTag::Job);
    } else if code == 0x04 {
        lemma_group_code_round_trip(IppTag::Printer);
    } else if code == 0x05 {
        lemma_group_code_round_trip(IppTag::UnsupportedGroup);
    } else if code == 0x06 {
        lemma_group_code_round_trip(IppTag::Subscription);
    } else if code == 0x07 {
        lemma_group_code_round_trip(IppTag::EventNotification);
    } else if code == 0x08 {
        lemma_group_code_round_trip(IppTag::Resource);
    } else if code == 0x09 {
        lemma_group_code_round_trip(IppTag::Document);
    } else if code == 0x0a {
        lemma_group_code_round_trip(IppTag::System);
    }
}

/// The value tags are read from the wire codes IPP assigns them (RFC 8010
/// and its registry); every other code is kept as [`IppValueTag::Other`].
pub proof fn lemma_value_tag_wire_codes(code: i32)
    ensures
        value_tag_from_code(code) == match code {
            0x10i32 => IppValueTag::UnsupportedValue,
            0x11i32 => IppValueTag::Default,
            0x12i32 => IppValueTag::Unknown,
            0x13i32 => IppValueTag::NoValue,
            0x15i32 => IppValueTag::NotSettable,
            0x16i32 => IppValueTag::DeleteAttr,
            0x17i32 => IppValueTag::AdminDefine,
            0x21i32 => IppValueTag::Integer,
            0x22i32 => IppValueTag::Boolean,
            0x23i32 => IppValueTag::Enum,
            0x30i32 => IppValueTag::String,
            0x31i32 => IppValueTag::Date,
            0x32i32 => IppValueTag::Resolution,
            0x33i32 => IppValueTag::Range,
            0x34i32 => IppValueTag::BeginCollection,
            0x35i32 => IppValueTag::TextLang,
            0x36i32 => IppValueTag::NameLang,
            0x37i32 => IppValueTag::EndCollection,
            0x41i32 => IppValueTag::Text,
            0x42i32 => IppValueTag::Name,
            0x44i32 => IppValueTag::Keyword,
            0x45i32 => IppValueTag::Uri,
            0x46i32 => IppValueTag::UriScheme,
            0x47i32 => IppValueTag::Charset,
            0x48i32 => IppValueTag::Language,
            0x49i32 => IppValueTag::MimeType,
            0x4ai32 => IppValueTag::MemberName,
            _ => IppValueTag::Other(code),
        },
{
    lemma_value_tag_from_code_inverse(code);
    if code == 0x10 {
        lemma_value_tag_round_trip(IppValueTag::UnsupportedValue);
    } else if code == 0x11 {
        lemma_value_tag_round_trip(IppValueTag::Default);
    } else if code == 0x12 {
        lemma_value_tag_round_trip(IppValueTag::Unknown);
    } else if code == 0x13 {
        lemma_value_tag_round_trip(IppValueTag::NoValue);
    } else if code == 0x15 {
        lemma_value_tag_round_trip(IppValueTag::NotSettable);
    } else if code == 0x16 {
        lemma_value_tag_round_trip(IppValueTag::DeleteAttr);
    } else if code == 0x17 {
        lemma_value_tag_round_trip(IppValueTag::AdminDefine);
    } else if code == 0x21 {
        lemma_value_tag_round_trip(IppValueTag::Integer);
    } else if code == 0x22 {
        lemma_value_tag_round_trip(IppValueTag::Boolean);
    } else if code == 0x23 {
        lemma_value_tag_round_trip(IppValueTag::Enum);
    } else if code == 0x30 {
        lemma_value_tag_round_trip(IppValueTag::String);
    } else if code == 0x31 {
        lemma_value_tag_round_trip(IppValueTag::Date);
    } else if code == 0x32 {
        lemma_value_tag_round_trip(IppValueTag::Resolution);
    } else if code == 0x33 {
        lemma_value_tag_round_trip(IppValueTag::Range);
    } else if code == 0x34 {
        lemma_value_tag_round_trip(IppValueTag::BeginCollection);
    } else if code == 0x35 {
        lemma_value_tag_round_trip(IppValueTag::TextLang);
    } else if code == 0x36 {
        lemma_value_tag_round_trip(IppValueTag::NameLang);
    } else if code == 0x37 {
        lemma_value_tag_round_trip(IppValueTag::EndCollection);
    } else if code == 0x41 {
        lemma_value_tag_round_trip(IppValueTag::Text);
    } else if code == 0x42 {
        lemma_value_tag_round_trip(IppValueTag::Name);
    } else if code == 0x44 {
        lemma_value_tag_round_trip(IppValueTag::Keyword);
    } else if code == 0x45 {
        lemma_value_tag_round_trip(IppValueTag::Uri);
    } else if code == 0x46 {
        lemma_value_tag_round_trip(IppValueTag::UriScheme);
    } else if code == 0x47 {
        lemma_value_tag_round_trip(IppValueTag::Charset);
    } else if code == 0x48 {
        lemma_value_tag_round_trip(IppValueTag::Language);
    } else if code == 0x49 {
        lemma_value_tag_round_trip(IppValueTag::MimeType);
    } else if code == 0x4a {
        lemma_value_tag_round_trip(IppValueTag::MemberName);
    }
}

/// The text-like value tags are exactly those read from the wire codes of
/// `textWithLanguage` (0x35), `nameWithLanguage` (0x36),
/// `textWithoutLanguage` (0x41), `nameWithoutLanguage` (0x42) and `keyword`
/// (0x44); `uri` is read from 0x45 alone.
pub proof fn lemma_text_like_codes(code: i32)
    ensures
        text_like(value_tag_from_code(code)) <==> (code == 0x35 || code == 0x36 || code == 0x41
            || code == 0x42 || code == 0x44),
        value_tag_from_code(code) == IppValueTag::Uri <==> code == 0x45,
{
    lemma_value_tag_wire_codes(code);
}


pub const IPP_OP_PRINT_JOB: i32 = 0x0002;
pub const IPP_OP_VALIDATE_JOB: i32 = 0x0004;
pub const IPP_OP_CREATE_JOB: i32 = 0x0005;
pub const IPP_OP_SEND_DOCUMENT: i32 = 0x0006;
pub const IPP_OP_CANCEL_JOB: i32 = 0x0008;
pub const IPP_OP_GET_JOB_ATTRIBUTES: i32 = 0x0009;
pub const IPP_OP_GET_JOBS: i32 = 0x000a;
pub const IPP_OP_GET_PRINTER_ATTRIBUTES: i32 = 0x000b;
pub const IPP_OP_GET_SYSTEM_ATTRIBUTES: i32 = 0x005b;
pub const IPP_OP_HOLD_JOB: i32 = 0x000c;
pub const IPP_OP_RELEASE_JOB: i32 = 0x000d;
pub const IPP_OP_PAUSE_PRINTER: i32 = 0x0010;
pub const IPP_OP_RESUME_PRINTER: i32 = 0x0011;
pub const IPP_OP_CREATE_PRINTER: i32 = 0x004c;
pub const IPP_OP_DELETE_PRINTER: i32 = 0x004e;
pub const IPP_OP_GET_PRINTERS: i32 = 0x004f;
pub const IPP_OP_CUPS_ADD_MODIFY_PRINTER: i32 = 0x4003;
pub const IPP_OP_CUPS_CREATE_LOCAL_PRINTER: i32 = 0x4028;
pub const IPP_OP_CUPS_DELETE_PRINTER: i32 = 0x4004;
pub const IPP_OP_CUPS_MOVE_JOB: i32 = 0x400d;
pub const IPP_OP_CUPS_SET_DEFAULT: i32 = 0x400a;

pub const IPP_STATUS_OK: i32 = 0x0000;
pub const IPP_STATUS_OK_IGNORED_OR_SUBSTITUTED: i32 = 0x0001;
pub const IPP_STATUS_OK_CONFLICTING: i32 = 0x0002;
pub const IPP_STATUS_ERROR_BAD_REQUEST: i32 = 0x0400;
pub const IPP_STATUS_ERROR_FORBIDDEN: i32 = 0x0401;
pub const IPP_STATUS_ERROR_NOT_AUTHENTICATED: i32 = 0x0402;
pub const IPP_STATUS_ERROR_NOT_AUTHORIZED: i32 = 0x0403;
pub const IPP_STATUS_ERROR_NOT_POSSIBLE: i32 = 0x0404;
pub const IPP_STATUS_ERROR_TIMEOUT: i32 = 0x0405;
pub const IPP_STATUS_ERROR_NOT_FOUND: i32 = 0x0406;
pub const IPP_STATUS_ERROR_GONE: i32 = 0x0407;
pub const IPP_STATUS_ERROR_REQUEST_ENTITY: i32 = 0x0408;
pub const IPP_STATUS_ERROR_REQUEST_VALUE: i32 = 0x0409;
pub const IPP_STATUS_ERROR_DOCUMENT_FORMAT_NOT_SUPPORTED: i32 = 0x040a;
pub const IPP_STATUS_ERROR_OPERATION_NOT_SUPPORTED: i32 = 0x0501;
pub const IPP_STATUS_ERROR_CONFLICTING: i32 = 0x040e;
pub const IPP_STATUS_ERROR_PRINTER_IS_DEACTIVATED: i32 = 0x050a;
pub const IPP_STATUS_ERROR_TOO_MANY_JOBS: i32 = 0x050b;
pub const IPP_STATUS_ERROR_INTERNAL: i32 = 0x0500;

/// IPP operation codes
///
/// These codes identify the operation being performed in an IPP request.
#[derive(Debug, Clone, Copy, PartialEq, Eq, Structural)]
pub enum IppOperation {
    PrintJob,
    ValidateJob,
    CreateJob,
    SendDocument,
    CancelJob,
    GetJobAttributes,
    GetJobs,
    GetPrinterAttributes,
    GetSystemAttributes,
    HoldJob,
    ReleaseJob,
    PausePrinter,
    ResumePrinter,
    /// IPP System Service `Create-Printer`.
    CreatePrinter,
    /// IPP System Service `Delete-Printer`.
    DeletePrinter,
    /// IPP System Service `Get-Printers`.
    GetPrinters,
    CupsAddModifyPrinter,
    CupsCreateLocalPrinter,
    CupsDeletePrinter,
    CupsMoveJob,
    CupsSetDefault,
    /// An operation this crate does not name, such as a vendor extension.
    ///
    /// Printer Applications built on PAPPL expose their device and driver
    /// enumeration this way; see [`IppOperation::pappl_find_devices`] and its
    /// siblings.
    Other(u16),
}

/// The wire code of an operation.
pub open spec fn op_code(op: IppOperation) -> i32 {
    match op {
        IppOperation::PrintJob => IPP_OP_PRINT_JOB,
        IppOperation::ValidateJob => IPP_OP_VALIDATE_JOB,
        IppOperation::CreateJob => IPP_OP_CREATE_JOB,
        IppOperation::SendDocument => IPP_OP_SEND_DOCUMENT,
        IppOperation::CancelJob => IPP_OP_CANCEL_JOB,
        IppOperation::GetJobAttributes => IPP_OP_GET_JOB_ATTRIBUTES,
        IppOperation::GetJobs => IPP_OP_GET_JOBS,
        IppOperation::GetPrinterAttributes => IPP_OP_GET_PRINTER_ATTRIBUTES,
        IppOperation::GetSystemAttributes => IPP_OP_GET_SYSTEM_ATTRIBUTES,
        IppOperation::HoldJob => IPP_OP_HOLD_JOB,
        IppOperation::ReleaseJob => IPP_OP_RELEASE_JOB,
        IppOperation::PausePrinter => IPP_OP_PAUSE_PRINTER,
        IppOperation::ResumePrinter => IPP_OP_RESUME_PRINTER,
        IppOperation::CreatePrinter => IPP_OP_CREATE_PRINTER,
        IppOperation::DeletePrinter => IPP_OP_DELETE_PRINTER,
        IppOperation::GetPrinters => IPP_OP_GET_PRINTERS,
        IppOperation::CupsAddModifyPrinter => IPP_OP_CUPS_ADD_MODIFY_PRINTER,
        IppOperation::CupsCreateLocalPrinter => IPP_OP_CUPS_CREATE_LOCAL_PRINTER,
        IppOperation::CupsDeletePrinter => IPP_OP_CUPS_DELETE_PRINTER,
        IppOperation::CupsMoveJob => IPP_OP_CUPS_MOVE_JOB,
        IppOperation::CupsSetDefault => IPP_OP_CUPS_SET_DEFAULT,
        IppOperation::Other(code) => code as i32,
    }
}

impl From<IppOperation> for i32 {
    fn from(op: IppOperation) -> (r: i32) {
        match op {
            IppOperation::PrintJob => IPP_OP_PRINT_JOB,
            IppOperation::ValidateJob => IPP_OP_VALIDATE_JOB,
            IppOperation::CreateJob => IPP_OP_CREATE_JOB,
            IppOperation::SendDocument => IPP_OP_SEND_DOCUMENT,
            IppOperation::CancelJob => IPP_OP_CANCEL_JOB,
            IppOperation::GetJobAttributes => IPP_OP_GET_JOB_ATTRIBUTES,
            IppOperation::GetJobs => IPP_OP_GET_JOBS,
            IppOperation::GetPrinterAttributes => IPP_OP_GET_PRINTER_ATTRIBUTES,
            IppOperation::GetSystemAttributes => IPP_OP_GET_SYSTEM_ATTRIBUTES,
            IppOperation::HoldJob => IPP_OP_HOLD_JOB,
            IppOperation::ReleaseJob => IPP_OP_RELEASE_JOB,
            IppOperation::PausePrinter => IPP_OP_PAUSE_PRINTER,
            IppOperation::ResumePrinter => IPP_OP_RESUME_PRINTER,
            IppOperation::CreatePrinter => IPP_OP_CREATE_PRINTER,
            IppOperation::DeletePrinter => IPP_OP_DELETE_PRINTER,
            IppOperation::GetPrinters => IPP_OP_GET_PRINTERS,
            IppOperation::CupsAddModifyPrinter => IPP_OP_CUPS_ADD_MODIFY_PRINTER,
            IppOperation::CupsCreateLocalPrinter => IPP_OP_CUPS_CREATE_LOCAL_PRINTER,
            IppOperation::CupsDeletePrinter => IPP_OP_CUPS_DELETE_PRINTER,
            IppOperation::CupsMoveJob => IPP_OP_CUPS_MOVE_JOB,
            IppOperation::CupsSetDefault => IPP_OP_CUPS_SET_DEFAULT,
            IppOperation::Other(code) => code as i32,
        }
    }
}

impl vstd::std_specs::convert::FromSpecImpl<IppOperation> for i32 {
    open spec fn obeys_from_spec() -> bool {
        true
    }

    open spec fn from_spec(op: IppOperation) -> i32 {
        op_code(op)
    }
}

impl IppOperation {
    /// `PAPPL-Find-Devices`, which asks a Printer Application which output
    /// devices it can currently see.
    pub fn pappl_find_devices() -> (r: IppOperation)
        ensures
            r == IppOperation::Other(0x402b),
    {
        IppOperation::Other(0x402b)
    }

    /// `PAPPL-Find-Drivers`, which asks a Printer Application which of its
    /// drivers match a device ID.
    pub fn pappl_find_drivers() -> (r: IppOperation)
        ensures
            r == IppOperation::Other(0x402c),
    {
        IppOperation::Other(0x402c)
    }

    /// Returns the numeric operation code sent on the wire.
    pub fn code(self) -> (r: u16)
        ensures
            r as i32 == op_code(self),
    {
        match self {
            IppOperation::PrintJob => 0x0002,
            IppOperation::ValidateJob => 0x0004,
            IppOperation::CreateJob => 0x0005,
            IppOperation::SendDocument => 0x0006,
            IppOperation::CancelJob => 0x0008,
            IppOperation::GetJobAttributes => 0x0009,
            IppOperation::GetJobs => 0x000a,
            IppOperation::GetPrinterAttributes => 0x000b,
            IppOperation::GetSystemAttributes => 0x005b,
            IppOperation::HoldJob => 0x000c,
            IppOperation::ReleaseJob => 0x000d,
            IppOperation::PausePrinter => 0x0010,
            IppOperation::ResumePrinter => 0x0011,
            IppOperation::CreatePrinter => 0x004c,
            IppOperation::DeletePrinter => 0x004e,
            IppOperation::GetPrinters => 0x004f,
            IppOperation::CupsAddModifyPrinter => 0x4003,
            IppOperation::CupsCreateLocalPrinter => 0x4028,
            IppOperation::CupsDeletePrinter => 0x4004,
            IppOperation::CupsMoveJob => 0x400d,
            IppOperation::CupsSetDefault => 0x400a,
            IppOperation::Other(code) => code,
        }
    }
}

/// Every operation's wire code fits the 16 bits of the IPP header, and an
/// operation this crate does not name keeps the code it was given.
pub proof fn lemma_op_code_range(op: IppOperation)
    ensures
        0 <= op_code(op) <= 0xffff,
        op matches IppOperation::Other(c) ==> op_code(op) == c,
{
}

/// Distinct named operations have distinct wire codes.
pub proof fn lemma_op_code_injective(a: IppOperation, b: IppOperation)
    requires
        !(a is Other),
        !(b is Other),
    ensures
        op_code(a) == op_code(b) ==> a == b,
{
}

/// Each named operation goes on the wire with the code the IPP registry (and
/// CUPS, for its own `CUPS-*` operations) assigns it, such as 0x000a for
/// Get-Jobs and 0x000b for Get-Printer-Attributes; an operation kept as
/// [`IppOperation::Other`] goes with the code it holds.
pub proof fn lemma_op_wire_codes(op: IppOperation)
    ensures
        op_code(op) == match op {
            IppOperation::PrintJob => 0x0002i32,
            IppOperation::ValidateJob => 0x0004i32,
            IppOperation::CreateJob => 0x0005i32,
            IppOperation::SendDocument => 0x0006i32,
            IppOperation::CancelJob => 0x0008i32,
            IppOperation::GetJobAttributes => 0x0009i32,
            IppOperation::GetJobs => 0x000ai32,
            IppOperation::GetPrinterAttributes => 0x000bi32,
            IppOperation::HoldJob => 0x000ci32,
            IppOperation::ReleaseJob => 0x000di32,
            IppOperation::PausePrinter => 0x0010i32,
            IppOperation::ResumePrinter => 0x0011i32,
            IppOperation::CreatePrinter => 0x004ci32,
            IppOperation::DeletePrinter => 0x004ei32,
            IppOperation::GetPrinters => 0x004fi32,
            IppOperation::GetSystemAttributes => 0x005bi32,
            IppOperation::CupsAddModifyPrinter => 0x4003i32,
            IppOperation::CupsDeletePrinter => 0x4004i32,
            IppOperation::CupsSetDefault => 0x400ai32,
            IppOperation::CupsMoveJob => 0x400di32,
            IppOperation::CupsCreateLocalPrinter => 0x4028i32,
            IppOperation::Other(c) => c as i32,
        },
{
}

/// IPP status codes
///
/// These codes indicate the result of an IPP operation.
#[derive(Debug, Clone, Copy, PartialEq, Eq, Structural)]
pub enum IppStatus {
    /// `successful-ok`.
    SuccessfulOk,
    OkIgnoredOrSubstituted,
    OkConflicting,
    ErrorBadRequest,
    ErrorForbidden,
    ErrorNotAuthenticated,
    ErrorNotAuthorized,
    ErrorNotPossible,
    ErrorTimeout,
    ErrorNotFound,
    ErrorGone,
    ErrorRequestEntity,
    ErrorRequestValue,
    ErrorDocumentFormatNotSupported,
    ErrorOperationNotSupported,
    ErrorConflicting,
    ErrorPrinterIsDeactivated,
    ErrorTooManyJobs,
    ErrorInternalError,
}

/// The wire code of a status.
pub open spec fn status_code(status: IppStatus) -> i32 {
    match status {
        IppStatus::SuccessfulOk => IPP_STATUS_OK,
        IppStatus::OkIgnoredOrSubstituted => IPP_STATUS_OK_IGNORED_OR_SUBSTITUTED,
        IppStatus::OkConflicting => IPP_STATUS_OK_CONFLICTING,
        IppStatus::ErrorBadRequest => IPP_STATUS_ERROR_BAD_REQUEST,
        IppStatus::ErrorForbidden => IPP_STATUS_ERROR_FORBIDDEN,
        IppStatus::ErrorNotAuthenticated => IPP_STATUS_ERROR_NOT_AUTHENTICATED,
        IppStatus::ErrorNotAuthorized => IPP_STATUS_ERROR_NOT_AUTHORIZED,
        IppStatus::ErrorNotPossible => IPP_STATUS_ERROR_NOT_POSSIBLE,
        IppStatus::ErrorTimeout => IPP_STATUS_ERROR_TIMEOUT,
        IppStatus::ErrorNotFound => IPP_STATUS_ERROR_NOT_FOUND,
        IppStatus::ErrorGone => IPP_STATUS_ERROR_GONE,
        IppStatus::ErrorRequestEntity => IPP_STATUS_ERROR_REQUEST_ENTITY,
        IppStatus::ErrorRequestValue => IPP_STATUS_ERROR_REQUEST_VALUE,
        IppStatus::ErrorDocumentFormatNotSupported => IPP_STATUS_ERROR_DOCUMENT_FORMAT_NOT_SUPPORTED,
        IppStatus::ErrorOperationNotSupported => IPP_STATUS_ERROR_OPERATION_NOT_SUPPORTED,
        IppStatus::ErrorConflicting => IPP_STATUS_ERROR_CONFLICTING,
        IppStatus::ErrorPrinterIsDeactivated => IPP_STATUS_ERROR_PRINTER_IS_DEACTIVATED,
        IppStatus::ErrorTooManyJobs => IPP_STATUS_ERROR_TOO_MANY_JOBS,
        IppStatus::ErrorInternalError => IPP_STATUS_ERROR_INTERNAL,
    }
}

/// The status a wire code reads as; codes this crate does not model fold into
/// [`IppStatus::ErrorInternalError`].
pub open spec fn status_from_code(code: i32) -> IppStatus {
    if exists|s: IppStatus| status_code(s) == code {
        choose|s: IppStatus| status_code(s) == code
    } else {
        IppStatus::ErrorInternalError
    }
}

/// The successful statuses.
pub open spec fn successful(status: IppStatus) -> bool {
    matches!(status, IppStatus::SuccessfulOk | IppStatus::OkIgnoredOrSubstituted | IppStatus::OkConflicting)
}

impl IppStatus {
    pub fn from_code(code: i32) -> (r: IppStatus)
        ensures
            (exists|s: IppStatus| status_code(s) == code) ==> status_code(r) == code,
            (forall|s: IppStatus| status_code(s) != code) ==> r == IppStatus::ErrorInternalError,
            r == status_from_code(code),
    {
        let r = if code == IPP_STATUS_OK {
            IppStatus::SuccessfulOk
        } else if code == IPP_STATUS_OK_IGNORED_OR_SUBSTITUTED {
            IppStatus::OkIgnoredOrSubstituted
        } else if code == IPP_STATUS_OK_CONFLICTING {
            IppStatus::OkConflicting
        } else if code == IPP_STATUS_ERROR_BAD_REQUEST {
            IppStatus::ErrorBadRequest
        } else if code == IPP_STATUS_ERROR_FORBIDDEN {
            IppStatus::ErrorForbidden
        } else if code == IPP_STATUS_ERROR_NOT_AUTHENTICATED {
            IppStatus::ErrorNotAuthenticated
        } else if code == IPP_STATUS_ERROR_NOT_AUTHORIZED {
            IppStatus::ErrorNotAuthorized
        } else if code == IPP_STATUS_ERROR_NOT_POSSIBLE {
            IppStatus::ErrorNotPossible
        } else if code == IPP_STATUS_ERROR_TIMEOUT {
            IppStatus::ErrorTimeout
        } else if code == IPP_STATUS_ERROR_NOT_FOUND {
            IppStatus::ErrorNotFound
        } else if code == IPP_STATUS_ERROR_GONE {
            IppStatus::ErrorGone
        } else if code == IPP_STATUS_ERROR_REQUEST_ENTITY {
            IppStatus::ErrorRequestEntity
        } else if code == IPP_STATUS_ERROR_REQUEST_VALUE {
            IppStatus::ErrorRequestValue
        } else if code == IPP_STATUS_ERROR_DOCUMENT_FORMAT_NOT_SUPPORTED {
            IppStatus::ErrorDocumentFormatNotSupported
        } else if code == IPP_STATUS_ERROR_OPERATION_NOT_SUPPORTED {
            IppStatus::ErrorOperationNotSupported
        } else if code == IPP_STATUS_ERROR_CONFLICTING {
            IppStatus::ErrorConflicting
        } else if code == IPP_STATUS_ERROR_PRINTER_IS_DEACTIVATED {
            IppStatus::ErrorPrinterIsDeactivated
        } else if code == IPP_STATUS_ERROR_TOO_MANY_JOBS {
            IppStatus::ErrorTooManyJobs
        } else if code == IPP_STATUS_ERROR_INTERNAL {
            IppStatus::ErrorInternalError
        } else {
            IppStatus::ErrorInternalError
        };
        proof {
            if code == IPP_STATUS_ERROR_INTERNAL || r != IppStatus::ErrorInternalError {
                assert(status_code(r) == code);
            }
            if exists|s: IppStatus| status_code(s) == code {
                let s = choose|s: IppStatus| status_code(s) == code;
                lemma_status_code_injective(s, r);
            }
        }
        r
    }

    pub fn is_successful(&self) -> (r: bool)
        ensures
            r == successful(*self),
    {
        matches!(self, IppStatus::SuccessfulOk | IppStatus::OkIgnoredOrSubstituted | IppStatus::OkConflicting)
    }
}

/// Distinct statuses have distinct wire codes.
pub proof fn lemma_status_code_injective(a: IppStatus, b: IppStatus)
    ensures
        status_code(a) == status_code(b) ==> a == b,
{
}

/// Reading back the wire code of a status gives the same status.
pub proof fn lemma_status_round_trip(status: IppStatus)
    ensures
        status_from_code(status_code(status)) == status,
{
    let c = status_code(status);
    assert(status_code(status) == c);
    let s = choose|s: IppStatus| status_code(s) == c;
    lemma_status_code_injective(s, status);
}

/// A wire code reads as a successful status exactly when it is one of the
/// three `successful-ok` codes, 0x0000 to 0x0002.
pub proof fn lemma_successful_codes(code: i32)
    ensures
        successful(status_from_code(code)) <==> 0 <= code <= 2,
{
    if exists|s: IppStatus| status_code(s) == code {
        let s = choose|s: IppStatus| status_code(s) == code;
        assert(status_code(s) == code);
    }
    if 0 <= code <= 2 {
        if code == 0 {
            assert(status_code(IppStatus::SuccessfulOk) == code);
        } else if code == 1 {
            assert(status_code(IppStatus::OkIgnoredOrSubstituted) == code);
        } else {
            assert(status_code(IppStatus::OkConflicting) == code);
        }
    }
}

/// Each named status is the one the IPP registry assigns its wire code, such
/// as 0x0401 for client-error-forbidden and 0x0402 for
/// client-error-not-authenticated: it goes out as that code and that code
/// reads back as it. Every code the registry gives no status here reads as
/// [`IppStatus::ErrorInternalError`].
pub proof fn lemma_status_wire_codes(status: IppStatus, code: i32)
    ensures
        status_code(status) == match status {
            IppStatus::SuccessfulOk => 0x0000i32,
            IppStatus::OkIgnoredOrSubstituted => 0x0001i32,
            IppStatus::OkConflicting => 0x0002i32,
            IppStatus::ErrorBadRequest => 0x0400i32,
            IppStatus::ErrorForbidden => 0x0401i32,
            IppStatus::ErrorNotAuthenticated => 0x0402i32,
            IppStatus::ErrorNotAuthorized => 0x0403i32,
            IppStatus::ErrorNotPossible => 0x0404i32,
            IppStatus::ErrorTimeout => 0x0405i32,
            IppStatus::ErrorNotFound => 0x0406i32,
            IppStatus::ErrorGone => 0x0407i32,
            IppStatus::ErrorRequestEntity => 0x0408i32,
            IppStatus::ErrorRequestValue => 0x0409i32,
            IppStatus::ErrorDocumentFormatNotSupported => 0x040ai32,
            IppStatus::ErrorConflicting => 0x040ei32,
            IppStatus::ErrorInternalError => 0x0500i32,
            IppStatus::ErrorOperationNotSupported => 0x0501i32,
            IppStatus::ErrorPrinterIsDeactivated => 0x050ai32,
            IppStatus::ErrorTooManyJobs => 0x050bi32,
        },
        status_from_code(code) == match code {
            0x0000i32 => IppStatus::SuccessfulOk,
            0x0001i32 => IppStatus::OkIgnoredOrSubstituted,
            0x0002i32 => IppStatus::OkConflicting,
            0x0400i32 => IppStatus::ErrorBadRequest,
            0x0401i32 => IppStatus::ErrorForbidden,
            0x0402i32 => IppStatus::ErrorNotAuthenticated,
            0x0403i32 => IppStatus::ErrorNotAuthorized,
            0x0404i32 => IppStatus::ErrorNotPossible,
            0x0405i32 => IppStatus::ErrorTimeout,
            0x0406i32 => IppStatus::ErrorNotFound,
            0x0407i32 => IppStatus::ErrorGone,
            0x0408i32 => IppStatus::ErrorRequestEntity,
            0x0409i32 => IppStatus::ErrorRequestValue,
            0x040ai32 => IppStatus::ErrorDocumentFormatNotSupported,
            0x040ei32 => IppStatus::ErrorConflicting,
            0x0500i32 => IppStatus::ErrorInternalError,
            0x0501i32 => IppStatus::ErrorOperationNotSupported,
            0x050ai32 => IppStatus::ErrorPrinterIsDeactivated,
            0x050bi32 => IppStatus::ErrorTooManyJobs,
            _ => IppStatus::ErrorInternalError,
        },
{
    if code == 0x0000 {
        lemma_status_round_trip(IppStatus::SuccessfulOk);
    } else if code == 0x0001 {
        lemma_status_round_trip(IppStatus::OkIgnoredOrSubstituted);
    } else if code == 0x0002 {
        lemma_status_round_trip(IppStatus::OkConflicting);
    } else if code == 0x0400 {
        lemma_status_round_trip(IppStatus::ErrorBadRequest);
    } else if code == 0x0401 {
        lemma_status_round_trip(IppStatus::ErrorForbidden);
    } else if code == 0x0402 {
        lemma_status_round_trip(IppStatus::ErrorNotAuthenticated);
    } else if code == 0x0403 {
        lemma_status_round_trip(IppStatus::ErrorNotAuthorized);
    } else if code == 0x0404 {
        lemma_status_round_trip(IppStatus::ErrorNotPossible);
    } else if code == 0x0405 {
        lemma_status_round_trip(IppStatus::ErrorTimeout);
    } else if code == 0x0406 {
        lemma_status_round_trip(IppStatus::ErrorNotFound);
    } else if code == 0x0407 {
        lemma_status_round_trip(IppStatus::ErrorGone);
    } else if code == 0x0408 {
        lemma_status_round_trip(IppStatus::ErrorRequestEntity);
    } else if code == 0x0409 {
        lemma_status_round_trip(IppStatus::ErrorRequestValue);
    } else if code == 0x040a {
        lemma_status_round_trip(IppStatus::ErrorDocumentFormatNotSupported);
    } else if code == 0x040e {
        lemma_status_round_trip(IppStatus::ErrorConflicting);
    } else if code == 0x0500 {
        lemma_status_round_trip(IppStatus::ErrorInternalError);
    } else if code == 0x0501 {
        lemma_status_round_trip(IppStatus::ErrorOperationNotSupported);
    } else if code == 0x050a {
        lemma_status_round_trip(IppStatus::ErrorPrinterIsDeactivated);
    } else if code == 0x050b {
        lemma_status_round_trip(IppStatus::ErrorTooManyJobs);
    } else {
        assert(forall|s: IppStatus| status_code(s) != code);
    }
}

} // verus!
