//! Per-variant configuration: the attribute model of an error enum's
//! variants, how each attribute is read, and the rules a configuration obeys.

use vstd::prelude::*;
use crate::template::{Part, Segment, contains_brace, has_brace, parse_template, segments_view, template_parts};

verus! {

/// Why a variant's configuration is rejected.
#[derive(Debug, Clone, Copy, PartialEq, Eq, Structural)]
pub enum ConfigError {
    /// Neither `transparent` nor `code` is given.
    MissingCode,
    /// `transparent` is given together with `code`, `message`, `error` or `errors`.
    ConflictingOptions,
    /// An attribute key that is not recognized.
    UnknownKey,
    /// `error`, `errors` or a message names something that is not a named
    /// field of the variant.
    FieldsRequired,
    /// A `transparent` variant does not hold exactly one unnamed field.
    TransparentArityError,
    /// `code` is not an integer in 100..=599.
    InvalidStatusCode,
    /// `message` is neither a string literal nor a field name, or is a
    /// malformed template.
    InvalidMessageLiteral,
}

/// The value written after an attribute key.
#[derive(Debug, Clone, PartialEq)]
pub enum AttrValue {
    /// The key stands alone (`transparent`).
    Flag,
    /// An integer literal (`code = 404`).
    Int(u64),
    /// A string literal (`message = "Not here"`).
    Str(String),
    /// A bare identifier (`error = details`).
    Ident(String),
    /// Any other expression.
    Other,
}

/// One `key` or `key = value` item of a variant's attributes.
#[derive(Debug, Clone, PartialEq)]
pub struct AttrItem {
    pub key: String,
    pub value: AttrValue,
}

/// The shape of a variant's fields.
#[derive(Debug, Clone, PartialEq)]
pub enum VariantFields {
    Unit,
    /// A tuple variant with this many fields.
    Unnamed(usize),
    /// A struct variant with these field names, in declaration order.
    Named(Vec<String>),
}

/// One variant of an error enum: its name, fields and attribute items.
#[derive(Debug, Clone, PartialEq)]
pub struct VariantDecl {
    pub name: String,
    pub fields: VariantFields,
    pub attrs: Vec<AttrItem>,
}

/// How a variant's message is given.
#[derive(Debug, Clone, PartialEq)]
pub enum MessageValue {
    /// Literal text.
    Static(String),
    /// The value of the named field.
    Field(String),
    /// Text with `{field}` substitutions.
    Template(Vec<Segment>),
}

/// The configuration read from one variant's attributes.
#[derive(Debug, Clone, PartialEq)]
pub struct HttpErrorConfig {
    pub transparent: bool,
    pub code: Option<u16>,
    pub message: Option<MessageValue>,
    pub error_field: Option<String>,
    pub errors_field: Option<String>,
}

pub enum AttrSpec {
    Flag,
    Int(u64),
    Str(Seq<char>),
    Ident(Seq<char>),
    Other,
}

pub enum FieldsSpec {
    Unit,
    Unnamed(nat),
    Named(Seq<Seq<char>>),
}

pub enum MessageSpec {
    Static(Seq<char>),
    Field(Seq<char>),
    Template(Seq<Part>),
}

pub struct ConfigSpec {
    pub transparent: bool,
    pub code: Option<u16>,
    pub message: Option<MessageSpec>,
    pub error_field: Option<Seq<char>>,
    pub errors_field: Option<Seq<char>>,
}

pub struct VariantSpec {
    pub name: Seq<char>,
    pub fields: FieldsSpec,
    pub attrs: Seq<(Seq<char>, AttrSpec)>,
}

impl View for AttrValue {
    type V = AttrSpec;

    open spec fn view(&self) -> AttrSpec {
        match self {
            AttrValue::Flag => AttrSpec::Flag,
            AttrValue::Int(n) => AttrSpec::Int(*n),
            AttrValue::Str(s) => AttrSpec::Str(s@),
            AttrValue::Ident(s) => AttrSpec::Ident(s@),
            AttrValue::Other => AttrSpec::Other,
        }
    }
}

impl View for AttrItem {
    type V = (Seq<char>, AttrSpec);

    open spec fn view(&self) -> (Seq<char>, AttrSpec) {
        (self.key@, self.value@)
    }
}

pub open spec fn names_view(v: Seq<String>) -> Seq<Seq<char>> {
    v.map_values(|s: String| s@)
}

impl View for VariantFields {
    type V = FieldsSpec;

    open spec fn view(&self) -> FieldsSpec {
        match self {
            VariantFields::Unit => FieldsSpec::Unit,
            VariantFields::Unnamed(n) => FieldsSpec::Unnamed(*n as nat),
            VariantFields::Named(v) => FieldsSpec::Named(names_view(v@)),
        }
    }
}

pub open spec fn attrs_view(v: Seq<AttrItem>) -> Seq<(Seq<char>, AttrSpec)> {
    v.map_values(|a: AttrItem| a@)
}

impl View for VariantDecl {
    type V = VariantSpec;

    open spec fn view(&self) -> VariantSpec {
        VariantSpec { name: self.name@, fields: self.fields@, attrs: attrs_view(self.attrs@) }
    }
}

impl View for MessageValue {
    type V = MessageSpec;

    open spec fn view(&self) -> MessageSpec {
        match self {
            MessageValue::Static(s) => MessageSpec::Static(s@),
            MessageValue::Field(s) => MessageSpec::Field(s@),
            MessageValue::Template(v) => MessageSpec::Template(segments_view(v@)),
        }
    }
}

pub open spec fn opt_str(o: Option<String>) -> Option<Seq<char>> {
    match o {
        Some(s) => Some(s@),
        None => None,
    }
}

pub open spec fn opt_message(o: Option<MessageValue>) -> Option<MessageSpec> {
    match o {
        Some(m) => Some(m@),
        None => None,
    }
}

impl View for HttpErrorConfig {
    type V = ConfigSpec;

    open spec fn view(&self) -> ConfigSpec {
        ConfigSpec {
            transparent: self.transparent,
            code: self.code,
            message: opt_message(self.message),
            error_field: opt_str(self.error_field),
            errors_field: opt_str(self.errors_field),
        }
    }
}

/// A configuration with nothing set.
pub open spec fn empty_config() -> ConfigSpec {
    ConfigSpec {
        transparent: false,
        code: None,
        message: None,
        error_field: None,
        errors_field: None,
    }
}

/// How a message value is read: a string literal without braces is literal
/// text, one with braces a template; a bare identifier names a field.
pub open spec fn message_of(v: AttrSpec) -> Result<MessageSpec, ConfigError> {
    match v {
        AttrSpec::Str(t) => if !has_brace(t) {
            Ok(MessageSpec::Static(t))
        } else {
            match template_parts(t) {
                Some(p) => Ok(MessageSpec::Template(p)),
                None => Err(ConfigError::InvalidMessageLiteral),
            }
        },
        AttrSpec::Ident(f) => Ok(MessageSpec::Field(f)),
        _ => Err(ConfigError::InvalidMessageLiteral),
    }
}

/// The configuration after reading one attribute item; a later item with
/// the same key replaces an earlier one.
pub open spec fn apply_attr(c: ConfigSpec, key: Seq<char>, v: AttrSpec) -> Result<
    ConfigSpec,
    ConfigError,
> {
    if key == "transparent"@ {
        Ok(ConfigSpec { transparent: true, ..c })
    } else if key == "code"@ {
        match v {
            AttrSpec::Int(n) => if 100 <= n <= 599 {
                Ok(ConfigSpec { code: Some(n as u16), ..c })
            } else {
                Err(ConfigError::InvalidStatusCode)
            },
            _ => Err(ConfigError::InvalidStatusCode),
        }
    } else if key == "message"@ {
        match message_of(v) {
            Ok(m) => Ok(ConfigSpec { message: Some(m), ..c }),
            Err(e) => Err(e),
        }
    } else if key == "error"@ {
        match v {
            AttrSpec::Ident(f) => Ok(ConfigSpec { error_field: Some(f), ..c }),
            _ => Err(ConfigError::FieldsRequired),
        }
    } else if key == "errors"@ {
        match v {
            AttrSpec::Ident(f) => Ok(ConfigSpec { errors_field: Some(f), ..c }),
            _ => Err(ConfigError::FieldsRequired),
        }
    } else {
        Err(ConfigError::UnknownKey)
    }
}

/// The configuration read from the first `n` items, stopping at the first
/// item that is rejected.
pub open spec fn read_attrs(items: Seq<(Seq<char>, AttrSpec)>, n: int) -> Result<
    ConfigSpec,
    ConfigError,
>
    decreases n,
{
    if n <= 0 {
        Ok(empty_config())
    } else {
        match read_attrs(items, n - 1) {
            Ok(c) => apply_attr(c, items[n - 1].0, items[n - 1].1),
            Err(e) => Err(e),
        }
    }
}

/// The rules every configuration obeys: a code unless transparent, and
/// nothing else beside `transparent`.
pub open spec fn check_config(c: ConfigSpec) -> Result<(), ConfigError> {
    if !c.transparent && c.code is None {
        Err(ConfigError::MissingCode)
    } else if c.transparent && (c.code is Some || c.message is Some || c.error_field is Some
        || c.errors_field is Some) {
        Err(ConfigError::ConflictingOptions)
    } else {
        Ok(())
    }
}

/// The configuration of a variant with these attribute items: read, then
/// checked.
pub open spec fn config_of(items: Seq<(Seq<char>, AttrSpec)>) -> Result<ConfigSpec, ConfigError> {
    match read_attrs(items, items.len() as int) {
        Ok(c) => match check_config(c) {
            Ok(_) => Ok(c),
            Err(e) => Err(e),
        },
        Err(e) => Err(e),
    }
}

/// Whether two texts are equal.
pub fn same_text(a: &str, b: &str) -> (r: bool)
    ensures
        r == (a@ == b@),
{
    let n = a.unicode_len();
    let m = b.unicode_len();
    if n != m {
        return false;
    }
    let mut i: usize = 0;
    while i < n
        invariant
            n == a@.len(),
            m == b@.len(),
            n == m,
            i <= n,
            forall|k: int| 0 <= k < i ==> a@[k] == b@[k],
        decreases n - i,
    {
        if a.get_char(i) != b.get_char(i) {
            return false;
        }
        i = i + 1;
    }
    assert(a@ =~= b@);
    true
}

pub(crate) fn copy_string(s: &String) -> (r: String)
    ensures
        r@ == s@,
{
    s.as_str().to_string()
}

impl HttpErrorConfig {
    /// A configuration with nothing set.
    pub fn new() -> (r: HttpErrorConfig)
        ensures
            r@ == empty_config(),
    {
        HttpErrorConfig {
            transparent: false,
            code: None,
            message: None,
            error_field: None,
            errors_field: None,
        }
    }

    /// Reads one attribute item into the configuration. On an error the
    /// configuration is left as it was.
    pub fn parse_http_attr(&mut self, item: &AttrItem) -> (r: Result<(), ConfigError>)
        ensures
            match apply_attr(old(self)@, item@.0, item@.1) {
                Ok(c) => r is Ok && final(self)@ == c,
                Err(e) => r == Err::<(), ConfigError>(e) && final(self)@ == old(self)@,
            },
    {
        let key = item.key.as_str();
        proof {
            reveal_strlit("transparent");
            reveal_strlit("code");
            reveal_strlit("message");
            reveal_strlit("error");
            reveal_strlit("errors");
        }
        if same_text(key, "transparent") {
            self.transparent = true;
            Ok(())
        } else if same_text(key, "code") {
            match &item.value {
                AttrValue::Int(n) => {
                    if 100 <= *n && *n <= 599 {
                        self.code = Some(*n as u16);
                        Ok(())
                    } else {
                        Err(ConfigError::InvalidStatusCode)
                    }
                },
                _ => Err(ConfigError::InvalidStatusCode),
            }
        } else if same_text(key, "message") {
            match &item.value {
                AttrValue::Str(t) => {
                    if !contains_brace(t.as_str()) {
                        self.message = Some(MessageValue::Static(copy_string(t)));
                        Ok(())
                    } else {
                        match parse_template(t.as_str()) {
                            Some(segs) => {
                                self.message = Some(MessageValue::Template(segs));
                                Ok(())
                            },
                            None => Err(ConfigError::InvalidMessageLiteral),
                        }
                    }
                },
                AttrValue::Ident(f) => {
                    self.message = Some(MessageValue::Field(copy_string(f)));
                    Ok(())
                },
                _ => Err(ConfigError::InvalidMessageLiteral),
            }
        } else if same_text(key, "error") {
            match &item.value {
                AttrValue::Ident(f) => {
                    self.error_field = Some(copy_string(f));
                    Ok(())
                },
                _ => Err(ConfigError::FieldsRequired),
            }
        } else if same_text(key, "errors") {
            match &item.value {
                AttrValue::Ident(f) => {
                    self.errors_field = Some(copy_string(f));
                    Ok(())
                },
                _ => Err(ConfigError::FieldsRequired),
            }
        } else {
            Err(ConfigError::UnknownKey)
        }
    }

    /// Checks the rules every configuration obeys.
    pub fn validate(&self) -> (r: Result<(), ConfigError>)
        ensures
            r == check_config(self@),
    {
        if !self.transparent && self.code.is_none() {
            Err(ConfigError::MissingCode)
        } else if self.transparent && (self.code.is_some() || self.message.is_some()
            || self.error_field.is_some() || self.errors_field.is_some()) {
            Err(ConfigError::ConflictingOptions)
        } else {
            Ok(())
        }
    }

    /// Reads a variant's attribute items in order and checks the result;
    /// the first rejected item decides the error.
    pub fn from_attrs(attrs: &Vec<AttrItem>) -> (r: Result<HttpErrorConfig, ConfigError>)
        ensures
            match config_of(attrs_view(attrs@)) {
                Ok(c) => r is Ok && r->Ok_0@ == c,
                Err(e) => r is Err && r->Err_0 == e,
            },
    {
        let ghost items = attrs_view(attrs@);
        let mut config = HttpErrorConfig::new();
        let mut i: usize = 0;
        while i < attrs.len()
            invariant
                i <= attrs@.len(),
                items == attrs_view(attrs@),
                read_attrs(items, i as int) == Ok::<ConfigSpec, ConfigError>(config@),
            decreases attrs@.len() - i,
        {
            match config.parse_http_attr(&attrs[i]) {
                Ok(()) => {},
                Err(e) => {
                    proof {
                        lemma_read_attrs_stops(items, i as int + 1, items.len() as int);
                    }
                    return Err(e);
                },
            }
            i = i + 1;
        }
        assert(i as int == items.len());
        match config.validate() {
            Ok(()) => Ok(config),
            Err(e) => Err(e),
        }
    }
}

/// Once an item is rejected, reading more items keeps that error.
proof fn lemma_read_attrs_stops(items: Seq<(Seq<char>, AttrSpec)>, k: int, n: int)
    requires
        0 < k <= n,
        read_attrs(items, k) is Err,
    ensures
        read_attrs(items, n) == read_attrs(items, k),
    decreases n - k,
{
    if n > k {
        lemma_read_attrs_stops(items, k, n - 1);
    }
}

} // verus!
