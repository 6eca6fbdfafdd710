//! From the variants of an error enum to one conversion rule per variant,
//! and from a value of the enum to its envelope.

use vstd::prelude::*;
use crate::config::{
    ConfigError, ConfigSpec, FieldsSpec, HttpErrorConfig, MessageSpec, MessageValue,
    VariantDecl, VariantFields, VariantSpec, config_of, copy_string,
};
use crate::json::{Envelope, JsonResponse, fresh_envelope};
use crate::status::{default_message_of, valid_status};
use crate::template::{Part, Segment, segments_view};

verus! {

/// An error enum: its name and variants in declaration order.
#[derive(Debug, Clone, PartialEq)]
pub struct EnumDecl {
    pub name: String,
    pub variants: Vec<VariantDecl>,
}

/// A piece of a resolved message template.
#[derive(Debug, Clone, PartialEq)]
pub enum Piece {
    Text(String),
    /// The text of the field at this position.
    Field(usize),
}

/// How a rule finds its message.
#[derive(Debug, Clone, PartialEq)]
pub enum MessageRule {
    /// The code's canonical reason.
    Default,
    Fixed(String),
    /// The text of the field at this position.
    Field(usize),
    Pieces(Vec<Piece>),
}

/// The envelope that a non-transparent variant builds.
#[derive(Debug, Clone, PartialEq)]
pub struct BuildRule {
    pub code: u16,
    /// How many fields the variant has.
    pub arity: usize,
    pub message: MessageRule,
    /// The position of the field attached as `error`.
    pub error: Option<usize>,
    /// The position of the field attached as `errors`.
    pub errors: Option<usize>,
}

/// The conversion of one variant.
#[derive(Debug, Clone, PartialEq)]
pub enum ConversionRule {
    /// Forward the inner value's own envelope unchanged.
    Delegate,
    Build(BuildRule),
}

/// Generation stopped at this variant with this error.
#[derive(Debug, Clone, Copy, PartialEq, Eq, Structural)]
pub struct GenerationError {
    pub variant: usize,
    pub error: ConfigError,
}

pub enum PieceSpec {
    Text(Seq<char>),
    Field(nat),
}

pub enum MessageRuleSpec {
    Default,
    Fixed(Seq<char>),
    Field(nat),
    Pieces(Seq<PieceSpec>),
}

pub struct BuildSpec {
    pub code: u16,
    pub arity: nat,
    pub message: MessageRuleSpec,
    pub error: Option<nat>,
    pub errors: Option<nat>,
}

pub enum RuleSpec {
    Delegate,
    Build(BuildSpec),
}

impl View for Piece {
    type V = PieceSpec;

    open spec fn view(&self) -> PieceSpec {
        match self {
            Piece::Text(t) => PieceSpec::Text(t@),
            Piece::Field(k) => PieceSpec::Field(*k as nat),
        }
    }
}

pub open spec fn pieces_view(v: Seq<Piece>) -> Seq<PieceSpec> {
    v.map_values(|p: Piece| p@)
}

pub open spec fn opt_nat(o: Option<usize>) -> Option<nat> {
    match o {
        Some(k) => Some(k as nat),
        None => None,
    }
}

impl View for MessageRule {
    type V = MessageRuleSpec;

    open spec fn view(&self) -> MessageRuleSpec {
        match self {
            MessageRule::Default => MessageRuleSpec::Default,
            MessageRule::Fixed(t) => MessageRuleSpec::Fixed(t@),
            MessageRule::Field(k) => MessageRuleSpec::Field(*k as nat),
            MessageRule::Pieces(v) => MessageRuleSpec::Pieces(pieces_view(v@)),
        }
    }
}

impl View for BuildRule {
    type V = BuildSpec;

    open spec fn view(&self) -> BuildSpec {
        BuildSpec {
            code: self.code,
            arity: self.arity as nat,
            message: self.message@,
            error: opt_nat(self.error),
            errors: opt_nat(self.errors),
        }
    }
}

impl View for ConversionRule {
    type V = RuleSpec;

    open spec fn view(&self) -> RuleSpec {
        match self {
            ConversionRule::Delegate => RuleSpec::Delegate,
            ConversionRule::Build(b) => RuleSpec::Build(b@),
        }
    }
}

pub open spec fn rules_view(v: Seq<ConversionRule>) -> Seq<RuleSpec> {
    v.map_values(|r: ConversionRule| r@)
}

pub open spec fn variants_view(v: Seq<VariantDecl>) -> Seq<VariantSpec> {
    v.map_values(|d: VariantDecl| d@)
}

/// The position of the first name equal to `f` at or after `i`.
pub open spec fn index_from(names: Seq<Seq<char>>, f: Seq<char>, i: int) -> Option<nat>
    decreases names.len() - i,
{
    if i < 0 || i >= names.len() {
        None
    } else if names[i] == f {
        Some(i as nat)
    } else {
        index_from(names, f, i + 1)
    }
}

/// The position of the named field `f`, if the variant has named fields and
/// one of them is `f`.
pub open spec fn resolve_field(fields: FieldsSpec, f: Seq<char>) -> Option<nat> {
    match fields {
        FieldsSpec::Named(names) => index_from(names, f, 0),
        _ => None,
    }
}

/// How many fields a variant has.
pub open spec fn arity_of(fields: FieldsSpec) -> nat {
    match fields {
        FieldsSpec::Unit => 0,
        FieldsSpec::Unnamed(n) => n,
        FieldsSpec::Named(names) => names.len(),
    }
}

/// The first `n` template parts with their field names resolved.
pub open spec fn resolve_parts(fields: FieldsSpec, parts: Seq<Part>, n: int) -> Option<
    Seq<PieceSpec>,
>
    decreases n,
{
    if n <= 0 {
        Some(Seq::empty())
    } else {
        match resolve_parts(fields, parts, n - 1) {
            Some(done) => match parts[n - 1] {
                Part::Text(t) => Some(done.push(PieceSpec::Text(t))),
                Part::Field(f) => match resolve_field(fields, f) {
                    Some(k) => Some(done.push(PieceSpec::Field(k))),
                    None => None,
                },
            },
            None => None,
        }
    }
}

/// The message rule for a configured message.
pub open spec fn message_rule_of(fields: FieldsSpec, m: Option<MessageSpec>) -> Option<
    MessageRuleSpec,
> {
    match m {
        None => Some(MessageRuleSpec::Default),
        Some(MessageSpec::Static(t)) => Some(MessageRuleSpec::Fixed(t)),
        Some(MessageSpec::Field(f)) => match resolve_field(fields, f) {
            Some(k) => Some(MessageRuleSpec::Field(k)),
            None => None,
        },
        Some(MessageSpec::Template(parts)) => match resolve_parts(fields, parts, parts.len() as int) {
            Some(ps) => Some(MessageRuleSpec::Pieces(ps)),
            None => None,
        },
    }
}

/// A field reference: absent, resolved, or unresolved (`None` inside).
pub open spec fn field_ref_of(fields: FieldsSpec, f: Option<Seq<char>>) -> Option<Option<nat>> {
    match f {
        None => Some(None),
        Some(name) => match resolve_field(fields, name) {
            Some(k) => Some(Some(k)),
            None => None,
        },
    }
}

/// The rule for a variant with these fields and this checked configuration.
pub open spec fn rule_of(fields: FieldsSpec, c: ConfigSpec) -> Result<RuleSpec, ConfigError> {
    if c.transparent {
        if fields == FieldsSpec::Unnamed(1) {
            Ok(RuleSpec::Delegate)
        } else {
            Err(ConfigError::TransparentArityError)
        }
    } else {
        match (
            message_rule_of(fields, c.message),
            field_ref_of(fields, c.error_field),
            field_ref_of(fields, c.errors_field),
        ) {
            (Some(m), Some(e), Some(es)) => Ok(
                RuleSpec::Build(
                    BuildSpec {
                        code: c.code->Some_0,
                        arity: arity_of(fields),
                        message: m,
                        error: e,
                        errors: es,
                    },
                ),
            ),
            _ => Err(ConfigError::FieldsRequired),
        }
    }
}

/// The rule of one variant, or the first error in its configuration.
pub open spec fn variant_rule(v: VariantSpec) -> Result<RuleSpec, ConfigError> {
    match config_of(v.attrs) {
        Ok(c) => rule_of(v.fields, c),
        Err(e) => Err(e),
    }
}

/// The rules of the first `n` variants, or the first variant that fails
/// with its error.
pub open spec fn rules_of(vs: Seq<VariantSpec>, n: int) -> Result<Seq<RuleSpec>, (nat, ConfigError)>
    decreases n,
{
    if n <= 0 {
        Ok(Seq::empty())
    } else {
        match rules_of(vs, n - 1) {
            Ok(done) => match variant_rule(vs[n - 1]) {
                Ok(r) => Ok(done.push(r)),
                Err(e) => Err(((n - 1) as nat, e)),
            },
            Err(e) => Err(e),
        }
    }
}

/// The rules of all variants of an enum, or where generation stops.
pub open spec fn derive_rules(vs: Seq<VariantSpec>) -> Result<Seq<RuleSpec>, (nat, ConfigError)> {
    rules_of(vs, vs.len() as int)
}

/// Field positions in a rule lie below its arity and its code is valid.
pub open spec fn rule_wf(r: RuleSpec) -> bool {
    match r {
        RuleSpec::Delegate => true,
        RuleSpec::Build(b) => {
            &&& valid_status(b.code)
            &&& match b.message {
                MessageRuleSpec::Field(k) => k < b.arity,
                MessageRuleSpec::Pieces(ps) => forall|i: int|
                    0 <= i < ps.len() ==> match #[trigger] ps[i] {
                        PieceSpec::Field(k) => k < b.arity,
                        PieceSpec::Text(_) => true,
                    },
                _ => true,
            }
            &&& match b.error {
                Some(k) => k < b.arity,
                None => true,
            }
            &&& match b.errors {
                Some(k) => k < b.arity,
                None => true,
            }
        },
    }
}

/// Finds the position of the named field `f`.
fn find_field(fields: &VariantFields, f: &String) -> (r: Option<usize>)
    ensures
        opt_nat(r) == resolve_field(fields@, f@),
        match r {
            Some(k) => k < arity_of(fields@),
            None => true,
        },
{
    match fields {
        VariantFields::Named(names) => {
            let mut i: usize = 0;
            while i < names.len()
                invariant
                    i <= names@.len(),
                    fields@ == FieldsSpec::Named(crate::config::names_view(names@)),
                    index_from(crate::config::names_view(names@), f@, 0) == index_from(
                        crate::config::names_view(names@),
                        f@,
                        i as int,
                    ),
                decreases names@.len() - i,
            {
                if names[i] == *f {
                    return Some(i);
                }
                i = i + 1;
            }
            None
        },
        _ => None,
    }
}

fn resolve_ref(fields: &VariantFields, f: &Option<String>) -> (r: Option<Option<usize>>)
    ensures
        match r {
            Some(Some(k)) => field_ref_of(fields@, crate::config::opt_str(*f)) == Some(
                Some(k as nat),
            ) && k < arity_of(fields@),
            Some(None) => field_ref_of(fields@, crate::config::opt_str(*f)) == Some(
                None::<nat>,
            ),
            None => field_ref_of(fields@, crate::config::opt_str(*f)) is None,
        },
{
    match f {
        None => Some(None),
        Some(name) => match find_field(fields, name) {
            Some(k) => Some(Some(k)),
            None => None,
        },
    }
}

fn resolve_segments(fields: &VariantFields, segs: &Vec<Segment>) -> (r: Option<Vec<Piece>>)
    ensures
        match r {
            Some(ps) => resolve_parts(fields@, segments_view(segs@), segs@.len() as int) == Some(
                pieces_view(ps@),
            ) && forall|i: int|
                0 <= i < ps@.len() ==> match #[trigger] ps@[i] {
                    Piece::Field(k) => k < arity_of(fields@),
                    Piece::Text(_) => true,
                },
            None => resolve_parts(fields@, segments_view(segs@), segs@.len() as int) is None,
        },
{
    let ghost parts = segments_view(segs@);
    let mut out: Vec<Piece> = Vec::new();
    let mut i: usize = 0;
    while i < segs.len()
        invariant
            i <= segs@.len(),
            parts == segments_view(segs@),
            resolve_parts(fields@, parts, i as int) == Some(pieces_view(out@)),
            forall|j: int|
                0 <= j < out@.len() ==> match #[trigger] out@[j] {
                    Piece::Field(k) => k < arity_of(fields@),
                    Piece::Text(_) => true,
                },
        decreases segs@.len() - i,
    {
        let ghost prev = out@;
        match &segs[i] {
            Segment::Text(t) => {
                out.push(Piece::Text(copy_string(t)));
            },
            Segment::Field(f) => {
                match find_field(fields, f) {
                    Some(k) => {
                        out.push(Piece::Field(k));
                    },
                    None => {
                        proof {
                            lemma_resolve_parts_stops(fields@, parts, i as int + 1, parts.len() as int);
                        }
                        return None;
                    },
                }
            },
        }
        assert(pieces_view(out@) =~= pieces_view(prev).push(out@.last()@));
        i = i + 1;
    }
    Some(out)
}

proof fn lemma_resolve_parts_stops(fields: FieldsSpec, parts: Seq<Part>, k: int, n: int)
    requires
        0 < k <= n,
        resolve_parts(fields, parts, k) is None,
    ensures
        resolve_parts(fields, parts, n) is None,
    decreases n - k,
{
    if n > k {
        lemma_resolve_parts_stops(fields, parts, k, n - 1);
    }
}

fn message_rule(fields: &VariantFields, m: &Option<MessageValue>) -> (r: Option<MessageRule>)
    ensures
        match r {
            Some(x) => message_rule_of(fields@, crate::config::opt_message(*m)) == Some(x@)
                && message_rule_bounded(x@, arity_of(fields@)),
            None => message_rule_of(fields@, crate::config::opt_message(*m)) is None,
        },
{
    match m {
        None => Some(MessageRule::Default),
        Some(MessageValue::Static(t)) => Some(MessageRule::Fixed(copy_string(t))),
        Some(MessageValue::Field(f)) => match find_field(fields, f) {
            Some(k) => Some(MessageRule::Field(k)),
            None => None,
        },
        Some(MessageValue::Template(segs)) => match resolve_segments(fields, segs) {
            Some(ps) => {
                proof {
                    assert forall|i: int| 0 <= i < pieces_view(ps@).len() implies match #[trigger] pieces_view(ps@)[i] {
                        PieceSpec::Field(k) => k < arity_of(fields@),
                        PieceSpec::Text(_) => true,
                    } by {
                        match ps@[i] {
                            Piece::Field(k) => {},
                            Piece::Text(_) => {},
                        }
                    }
                }
                Some(MessageRule::Pieces(ps))
            },
            None => None,
        },
    }
}

/// Field positions in a message rule lie below `arity`.
pub open spec fn message_rule_bounded(m: MessageRuleSpec, arity: nat) -> bool {
    match m {
        MessageRuleSpec::Field(k) => k < arity,
        MessageRuleSpec::Pieces(ps) => forall|i: int|
            0 <= i < ps.len() ==> match #[trigger] ps[i] {
                PieceSpec::Field(k) => k < arity,
                PieceSpec::Text(_) => true,
            },
        _ => true,
    }
}

fn fields_arity(fields: &VariantFields) -> (r: usize)
    ensures
        r == arity_of(fields@),
{
    match fields {
        VariantFields::Unit => 0,
        VariantFields::Unnamed(n) => *n,
        VariantFields::Named(names) => names.len(),
    }
}

/// The code of a configuration read from attributes is a valid status.
pub proof fn lemma_read_attrs_code_valid(items: Seq<(Seq<char>, crate::config::AttrSpec)>, n: int)
    requires
        crate::config::read_attrs(items, n) is Ok,
    ensures
        match crate::config::read_attrs(items, n)->Ok_0.code {
            Some(c) => valid_status(c),
            None => true,
        },
    decreases n,
{
    if n > 0 {
        lemma_read_attrs_code_valid(items, n - 1);
    }
}

/// The code of an accepted configuration is a valid status.
pub proof fn lemma_config_code_valid(items: Seq<(Seq<char>, crate::config::AttrSpec)>)
    requires
        config_of(items) is Ok,
    ensures
        match config_of(items)->Ok_0.code {
            Some(c) => valid_status(c),
            None => true,
        },
{
    lemma_read_attrs_code_valid(items, items.len() as int);
}

/// Builds the rule of a variant from its fields and its checked
/// configuration, resolving every field name to a position.
fn rule_for(fields: &VariantFields, config: &HttpErrorConfig) -> (r: Result<ConversionRule, ConfigError>)
    requires
        crate::config::check_config(config@) is Ok,
        match config@.code {
            Some(c) => valid_status(c),
            None => true,
        },
    ensures
        match rule_of(fields@, config@) {
            Ok(x) => r is Ok && r->Ok_0@ == x && rule_wf(x),
            Err(e) => r == Err::<ConversionRule, ConfigError>(e),
        },
{
    if config.transparent {
        match fields {
            VariantFields::Unnamed(n) => {
                if *n == 1 {
                    return Ok(ConversionRule::Delegate);
                }
            },
            _ => {},
        }
        return Err(ConfigError::TransparentArityError);
    }
    let code = match config.code {
        Some(c) => c,
        None => 500,
    };
    let m = message_rule(fields, &config.message);
    let e = resolve_ref(fields, &config.error_field);
    let es = resolve_ref(fields, &config.errors_field);
    match (m, e, es) {
        (Some(m), Some(e), Some(es)) => {
            let b = BuildRule { code, arity: fields_arity(fields), message: m, error: e, errors: es };
            Ok(ConversionRule::Build(b))
        },
        _ => Err(ConfigError::FieldsRequired),
    }
}

/// The rule of one variant, or the first error in its configuration.
pub fn variant_rule_for(v: &VariantDecl) -> (r: Result<ConversionRule, ConfigError>)
    ensures
        match variant_rule(v@) {
            Ok(x) => r is Ok && r->Ok_0@ == x && rule_wf(x),
            Err(e) => r == Err::<ConversionRule, ConfigError>(e),
        },
{
    match HttpErrorConfig::from_attrs(&v.attrs) {
        Ok(config) => {
            proof {
                lemma_config_code_valid(v@.attrs);
            }
            rule_for(&v.fields, &config)
        },
        Err(e) => Err(e),
    }
}

/// The captured value of one field of a variant: its text (used in
/// messages) and its serialized form (used as `error` or `errors`).
#[derive(Debug, Clone, PartialEq)]
pub struct FieldValue {
    pub text: String,
    pub json: serde_json::Value,
}

/// What a value of the enum carries.
pub enum Payload {
    /// The fields of a non-transparent variant, in declaration order.
    Fields(Vec<FieldValue>),
    /// The envelope that the wrapped value of a transparent variant
    /// converts to.
    Inner(JsonResponse),
}

/// A value of the enum: which variant, and what it carries.
pub struct ErrorInstance {
    pub variant: usize,
    pub payload: Payload,
}

/// Whether a payload has the shape that a rule expects.
pub open spec fn fits(r: RuleSpec, p: Payload) -> bool {
    match (r, p) {
        (RuleSpec::Delegate, Payload::Inner(_)) => true,
        (RuleSpec::Build(b), Payload::Fields(vs)) => vs@.len() == b.arity,
        _ => false,
    }
}

/// The text of one message piece.
pub open spec fn piece_text(p: PieceSpec, vs: Seq<FieldValue>) -> Seq<char> {
    match p {
        PieceSpec::Text(t) => t,
        PieceSpec::Field(k) => vs[k as int].text@,
    }
}

/// The first `n` pieces rendered and joined.
pub open spec fn render_pieces(ps: Seq<PieceSpec>, vs: Seq<FieldValue>, n: int) -> Seq<char>
    decreases n,
{
    if n <= 0 {
        Seq::empty()
    } else {
        render_pieces(ps, vs, n - 1) + piece_text(ps[n - 1], vs)
    }
}

/// The message a build rule gives for these field values.
pub open spec fn message_text(b: BuildSpec, vs: Seq<FieldValue>) -> Seq<char> {
    match b.message {
        MessageRuleSpec::Default => default_message_of(b.code),
        MessageRuleSpec::Fixed(t) => t,
        MessageRuleSpec::Field(k) => vs[k as int].text@,
        MessageRuleSpec::Pieces(ps) => render_pieces(ps, vs, ps.len() as int),
    }
}

/// The field attached under a key, if the rule names one.
pub open spec fn attached(k: Option<nat>, vs: Seq<FieldValue>) -> Option<serde_json::Value> {
    match k {
        Some(i) => Some(vs[i as int].json),
        None => None,
    }
}

/// The envelope that a rule gives for a payload of its shape.
pub open spec fn convert_spec(r: RuleSpec, p: Payload) -> Envelope {
    match (r, p) {
        (RuleSpec::Build(b), Payload::Fields(vs)) => Envelope {
            message: message_text(b, vs@),
            error: attached(b.error, vs@),
            errors: attached(b.errors, vs@),
            ..fresh_envelope(b.code)
        },
        (_, Payload::Inner(e)) => e@,
        _ => fresh_envelope(500),
    }
}

fn render(ps: &Vec<Piece>, vs: &Vec<FieldValue>) -> (r: String)
    requires
        forall|i: int|
            0 <= i < ps@.len() ==> match #[trigger] ps@[i] {
                Piece::Field(k) => k < vs@.len(),
                Piece::Text(_) => true,
            },
    ensures
        r@ == render_pieces(pieces_view(ps@), vs@, ps@.len() as int),
{
    let mut out = String::new();
    let mut i: usize = 0;
    while i < ps.len()
        invariant
            i <= ps@.len(),
            out@ == render_pieces(pieces_view(ps@), vs@, i as int),
            forall|j: int|
                0 <= j < ps@.len() ==> match #[trigger] ps@[j] {
                    Piece::Field(k) => k < vs@.len(),
                    Piece::Text(_) => true,
                },
        decreases ps@.len() - i,
    {
        match &ps[i] {
            Piece::Text(t) => out.append(t.as_str()),
            Piece::Field(k) => out.append(vs[*k].text.as_str()),
        }
        i = i + 1;
    }
    out
}

/// The conversion generated for an error enum: one rule per variant, in
/// declaration order.
#[derive(Debug)]
pub struct ErrorConversion {
    rules: Vec<ConversionRule>,
}

impl View for ErrorConversion {
    type V = Seq<RuleSpec>;

    closed spec fn view(&self) -> Seq<RuleSpec> {
        rules_view(self.rules@)
    }
}

impl ErrorConversion {
    #[verifier::type_invariant]
    closed spec fn inv(&self) -> bool {
        forall|i: int| 0 <= i < self.rules@.len() ==> rule_wf(#[trigger] self.rules@[i]@)
    }

    /// Validates every variant in declaration order and builds its rule;
    /// stops at the first variant whose configuration is rejected.
    pub fn derive(decl: &EnumDecl) -> (r: Result<ErrorConversion, GenerationError>)
        ensures
            match derive_rules(variants_view(decl.variants@)) {
                Ok(rs) => r is Ok && r->Ok_0@ == rs,
                Err((i, e)) => r is Err && r->Err_0.variant == i && r->Err_0.error == e,
            },
    {
        let ghost vs = variants_view(decl.variants@);
        let mut rules: Vec<ConversionRule> = Vec::new();
        assert(rules_view(rules@) =~= Seq::<RuleSpec>::empty());
        let mut i: usize = 0;
        while i < decl.variants.len()
            invariant
                i <= decl.variants@.len(),
                vs == variants_view(decl.variants@),
                rules_of(vs, i as int) == Ok::<Seq<RuleSpec>, (nat, ConfigError)>(rules_view(rules@)),
                forall|j: int| 0 <= j < rules@.len() ==> rule_wf(#[trigger] rules@[j]@),
            decreases decl.variants@.len() - i,
        {
            match variant_rule_for(&decl.variants[i]) {
                Ok(rule) => {
                    let ghost prev = rules@;
                    rules.push(rule);
                    assert(rules_view(rules@) =~= rules_view(prev).push(rules@.last()@));
                },
                Err(e) => {
                    proof {
                        lemma_rules_of_stops(vs, i as int + 1, vs.len() as int);
                    }
                    return Err(GenerationError { variant: i, error: e });
                },
            }
            i = i + 1;
        }
        Ok(ErrorConversion { rules })
    }

    /// The number of variants.
    pub fn len(&self) -> (r: usize)
        ensures
            r == self@.len(),
    {
        self.rules.len()
    }

    /// The rule of variant `i`.
    pub fn rule(&self, i: usize) -> (r: &ConversionRule)
        requires
            i < self@.len(),
        ensures
            r@ == self@[i as int],
            rule_wf(r@),
    {
        proof {
            use_type_invariant(self);
        }
        &self.rules[i]
    }

    /// Whether a value has a variant of this enum and the shape of that
    /// variant.
    pub fn accepts(&self, e: &ErrorInstance) -> (r: bool)
        ensures
            r == (e.variant < self@.len() && fits(self@[e.variant as int], e.payload)),
    {
        if e.variant >= self.rules.len() {
            return false;
        }
        match (&self.rules[e.variant], &e.payload) {
            (ConversionRule::Delegate, Payload::Inner(_)) => true,
            (ConversionRule::Build(b), Payload::Fields(vs)) => vs.len() == b.arity,
            _ => false,
        }
    }

    /// Converts a value of the enum to its envelope: a transparent variant
    /// forwards its inner envelope unchanged; any other builds a fresh
    /// envelope with its code, its message and the attached fields.
    pub fn convert(&self, e: ErrorInstance) -> (r: JsonResponse)
        requires
            e.variant < self@.len(),
            fits(self@[e.variant as int], e.payload),
        ensures
            r@ == convert_spec(self@[e.variant as int], e.payload),
    {
        proof {
            use_type_invariant(self);
        }
        let rule = &self.rules[e.variant];
        assert(rule_wf(rule@));
        match (rule, e.payload) {
            (ConversionRule::Delegate, Payload::Inner(inner)) => inner,
            (ConversionRule::Build(b), Payload::Fields(vs)) => {
                let mut r = JsonResponse::status(b.code);
                match &b.message {
                    MessageRule::Default => {},
                    MessageRule::Fixed(t) => {
                        r = r.message(t.as_str());
                    },
                    MessageRule::Field(k) => {
                        r = r.message(vs[*k].text.as_str());
                    },
                    MessageRule::Pieces(ps) => {
                        proof {
                            assert forall|i: int| 0 <= i < ps@.len() implies match #[trigger] ps@[i] {
                                Piece::Field(k) => k < vs@.len(),
                                Piece::Text(_) => true,
                            } by {
                                assert(pieces_view(ps@)[i] == ps@[i]@);
                            }
                        }
                        let text = render(ps, &vs);
                        r = r.message(text.as_str());
                    },
                }
                match b.error {
                    Some(k) => {
                        r = r.error(vs[k].json.clone());
                    },
                    None => {},
                }
                match b.errors {
                    Some(k) => {
                        r = r.errors(vs[k].json.clone());
                    },
                    None => {},
                }
                r
            },
            _ => JsonResponse::status(500),
        }
    }
}

proof fn lemma_rules_of_stops(vs: Seq<VariantSpec>, k: int, n: int)
    requires
        0 < k <= n,
        rules_of(vs, k) is Err,
    ensures
        rules_of(vs, n) == rules_of(vs, k),
    decreases n - k,
{
    if n > k {
        lemma_rules_of_stops(vs, k, n - 1);
    }
}

} // verus!
