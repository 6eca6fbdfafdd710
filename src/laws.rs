//! What generation and conversion guarantee, stated over the declarations
//! of an error enum and proved from the definitions.

use vstd::prelude::*;
use crate::config::{AttrSpec, ConfigError, ConfigSpec, FieldsSpec, VariantSpec, check_config, config_of, read_attrs};
use crate::generation::{
    Payload, RuleSpec, convert_spec, derive_rules, fits, index_from, resolve_field, rules_of,
    variant_rule,
};
use crate::json::JsonResponse;
use crate::status::success_code;

verus! {

/// Whether an item with this key is among the attribute items.
pub open spec fn declares(items: Seq<(Seq<char>, AttrSpec)>, key: Seq<char>) -> bool {
    exists|k: int| 0 <= k < items.len() && (#[trigger] items[k]).0 == key
}

/// Whether `f` is one of the variant's named fields.
pub open spec fn has_named_field(fields: FieldsSpec, f: Seq<char>) -> bool {
    match fields {
        FieldsSpec::Named(names) => names.contains(f),
        _ => false,
    }
}

proof fn lemma_read_attrs_flags(items: Seq<(Seq<char>, AttrSpec)>, n: int)
    requires
        0 <= n <= items.len(),
        read_attrs(items, n) is Ok,
    ensures
        read_attrs(items, n)->Ok_0.transparent <==> exists|k: int|
            0 <= k < n && (#[trigger] items[k]).0 == "transparent"@,
        (exists|k: int| 0 <= k < n && (#[trigger] items[k]).0 == "code"@) ==> read_attrs(
            items,
            n,
        )->Ok_0.code is Some,
    decreases n,
{
    if n > 0 {
        lemma_read_attrs_flags(items, n - 1);
        let last = items[n - 1];
        if last.0 == "transparent"@ {
            assert(items[n - 1].0 == "transparent"@);
        }
        if last.0 == "code"@ {
            assert(items[n - 1].0 == "code"@);
            reveal_strlit("code");
            reveal_strlit("transparent");
            assert("code"@ != "transparent"@) by {
                assert("code"@.len() != "transparent"@.len());
            }
        }
        if exists|k: int| 0 <= k < n - 1 && (#[trigger] items[k]).0 == "transparent"@ {
            let k = choose|k: int| 0 <= k < n - 1 && (#[trigger] items[k]).0 == "transparent"@;
            assert(0 <= k < n && items[k].0 == "transparent"@);
        }
        if exists|k: int| 0 <= k < n && (#[trigger] items[k]).0 == "transparent"@ {
            let k = choose|k: int| 0 <= k < n && (#[trigger] items[k]).0 == "transparent"@;
            if k < n - 1 {
                assert(0 <= k < n - 1 && items[k].0 == "transparent"@);
            }
        }
        if exists|k: int| 0 <= k < n && (#[trigger] items[k]).0 == "code"@ {
            let k = choose|k: int| 0 <= k < n && (#[trigger] items[k]).0 == "code"@;
            if k < n - 1 {
                assert(0 <= k < n - 1 && items[k].0 == "code"@);
            }
        }
    }
}

proof fn lemma_index_from_none(names: Seq<Seq<char>>, f: Seq<char>, i: int)
    requires
        0 <= i <= names.len(),
    ensures
        index_from(names, f, i) is None <==> forall|j: int| i <= j < names.len() ==> names[j] != f,
        match index_from(names, f, i) {
            Some(k) => i <= k < names.len() && names[k as int] == f,
            None => true,
        },
    decreases names.len() - i,
{
    if i < names.len() {
        lemma_index_from_none(names, f, i + 1);
    }
}

/// The field a name resolves to is that named field.
proof fn lemma_resolve_field(fields: FieldsSpec, f: Seq<char>)
    ensures
        resolve_field(fields, f) is None <==> !has_named_field(fields, f),
{
    match fields {
        FieldsSpec::Named(names) => {
            lemma_index_from_none(names, f, 0);
            if names.contains(f) {
                let j = choose|j: int| 0 <= j < names.len() && names[j] == f;
                assert(names[j] == f);
            }
            if index_from(names, f, 0) is Some {
                let k = index_from(names, f, 0)->Some_0;
                assert(names[k as int] == f);
            }
        },
        _ => {},
    }
}

proof fn lemma_rules_of_ok(vs: Seq<VariantSpec>, n: int)
    requires
        0 <= n <= vs.len(),
        rules_of(vs, n) is Ok,
    ensures
        rules_of(vs, n)->Ok_0.len() == n,
        forall|j: int|
            0 <= j < n ==> #[trigger] variant_rule(vs[j]) is Ok && rules_of(vs, n)->Ok_0[j]
                == variant_rule(vs[j])->Ok_0,
    decreases n,
{
    if n > 0 {
        lemma_rules_of_ok(vs, n - 1);
    }
}

/// The rule that generation gives variant `i`, when it succeeds.
pub open spec fn rule_at(vs: Seq<VariantSpec>, i: int) -> RuleSpec {
    derive_rules(vs)->Ok_0[i]
}

/// Transparent delegation: when generation succeeds, a variant declared
/// `transparent` converts to exactly the envelope of its inner value.
pub proof fn transparent_forwards_inner(vs: Seq<VariantSpec>, i: int, inner: JsonResponse)
    requires
        derive_rules(vs) is Ok,
        0 <= i < vs.len(),
        declares(vs[i].attrs, "transparent"@),
    ensures
        rule_at(vs, i) == RuleSpec::Delegate,
        fits(rule_at(vs, i), Payload::Inner(inner)),
        convert_spec(rule_at(vs, i), Payload::Inner(inner)) == inner@,
{
    lemma_rules_of_ok(vs, vs.len() as int);
    assert(variant_rule(vs[i]) is Ok);
    let items = vs[i].attrs;
    lemma_read_attrs_flags(items, items.len() as int);
    let k = choose|k: int| 0 <= k < items.len() && (#[trigger] items[k]).0 == "transparent"@;
    assert(0 <= k < items.len() && items[k].0 == "transparent"@);
}

/// A variant without `transparent` builds its own envelope: its code is
/// exactly the configured code, and the envelope reports success exactly
/// when that code lies in 200..=399.
pub proof fn built_envelope_code(vs: Seq<VariantSpec>, i: int, p: Payload)
    requires
        derive_rules(vs) is Ok,
        0 <= i < vs.len(),
        !declares(vs[i].attrs, "transparent"@),
        fits(rule_at(vs, i), p),
    ensures
        rule_at(vs, i) is Build,
        config_of(vs[i].attrs)->Ok_0.code is Some,
        convert_spec(rule_at(vs, i), p).code == config_of(vs[i].attrs)->Ok_0.code->Some_0,
        success_code(convert_spec(rule_at(vs, i), p).code) <==> (200
            <= config_of(vs[i].attrs)->Ok_0.code->Some_0 <= 399),
{
    lemma_rules_of_ok(vs, vs.len() as int);
    assert(variant_rule(vs[i]) is Ok);
    let items = vs[i].attrs;
    lemma_read_attrs_flags(items, items.len() as int);
}

/// `error = f` and `errors = f` attach the value of field `f` itself, as
/// given, under the key `error` or `errors`.
pub proof fn named_field_attached_verbatim(vs: Seq<VariantSpec>, i: int, p: Payload)
    requires
        derive_rules(vs) is Ok,
        0 <= i < vs.len(),
        config_of(vs[i].attrs) is Ok,
        fits(rule_at(vs, i), p),
    ensures
        ({
            let c = config_of(vs[i].attrs)->Ok_0;
            let e = convert_spec(rule_at(vs, i), p);
            &&& c.error_field is Some ==> {
                let k = resolve_field(vs[i].fields, c.error_field->Some_0);
                &&& k is Some
                &&& p is Fields
                &&& e.error == Some(p->Fields_0@[k->Some_0 as int].json)
            }
            &&& c.errors_field is Some ==> {
                let k = resolve_field(vs[i].fields, c.errors_field->Some_0);
                &&& k is Some
                &&& p is Fields
                &&& e.errors == Some(p->Fields_0@[k->Some_0 as int].json)
            }
        }),
{
    lemma_rules_of_ok(vs, vs.len() as int);
    assert(variant_rule(vs[i]) is Ok);
}

/// `transparent` together with `code` is rejected with `ConflictingOptions`
/// once every attribute item is accepted on its own, and generation of the
/// enum then fails.
pub proof fn transparent_with_code_conflicts(vs: Seq<VariantSpec>, i: int)
    requires
        0 <= i < vs.len(),
        read_attrs(vs[i].attrs, vs[i].attrs.len() as int) is Ok,
        declares(vs[i].attrs, "transparent"@),
        declares(vs[i].attrs, "code"@),
    ensures
        config_of(vs[i].attrs) == Err::<ConfigSpec, ConfigError>(ConfigError::ConflictingOptions),
        variant_rule(vs[i]) == Err::<RuleSpec, ConfigError>(ConfigError::ConflictingOptions),
        derive_rules(vs) is Err,
{
    let items = vs[i].attrs;
    lemma_read_attrs_flags(items, items.len() as int);
    let k = choose|k: int| 0 <= k < items.len() && (#[trigger] items[k]).0 == "transparent"@;
    assert(0 <= k < items.len() && items[k].0 == "transparent"@);
    let m = choose|m: int| 0 <= m < items.len() && (#[trigger] items[m]).0 == "code"@;
    assert(0 <= m < items.len() && items[m].0 == "code"@);
    if derive_rules(vs) is Ok {
        lemma_rules_of_ok(vs, vs.len() as int);
        assert(variant_rule(vs[i]) is Ok);
    }
}

/// `error = f` or `errors = f` where `f` is not a named field of the variant
/// is rejected with `FieldsRequired`, and generation of the enum then fails.
pub proof fn missing_field_rejected(vs: Seq<VariantSpec>, i: int, f: Seq<char>)
    requires
        0 <= i < vs.len(),
        config_of(vs[i].attrs) is Ok,
        config_of(vs[i].attrs)->Ok_0.error_field == Some(f) || config_of(vs[i].attrs)->Ok_0.errors_field
            == Some(f),
        !has_named_field(vs[i].fields, f),
    ensures
        variant_rule(vs[i]) == Err::<RuleSpec, ConfigError>(ConfigError::FieldsRequired),
        derive_rules(vs) is Err,
{
    lemma_resolve_field(vs[i].fields, f);
    let c = config_of(vs[i].attrs)->Ok_0;
    assert(check_config(c) is Ok);
    assert(!c.transparent);
    if derive_rules(vs) is Ok {
        lemma_rules_of_ok(vs, vs.len() as int);
        assert(variant_rule(vs[i]) is Ok);
    }
}

} // verus!
