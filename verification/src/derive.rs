//! The whole build-time decision in one step: read the attribute
//! configuration off the raw annotation lists, then resolve the declaration
//! to its emission plan.

use vstd::prelude::*;
use crate::attrs::AttrEntry;
use crate::attrs::attr_flag;
use crate::attrs::attr_value;
use crate::attrs::attrs_value;
use crate::attrs::has_attr;
use crate::attrs::opt_view;
use crate::case_style::CaseStyle;
use crate::case_style::snake_of;
use crate::case_style::style_of_name;
use crate::case_style::stylized;
use crate::plan::Backends;
use crate::plan::ConfigError;
use crate::plan::EnumInfo;
use crate::plan::MappingRef;
use crate::plan::Plan;
use crate::plan::TypeAttrs;
use crate::plan::VariantInfo;
use crate::plan::config_error_of;
use crate::plan::plan_matches;
use crate::plan::resolve;

verus! {

/// One variant as the declaration carries it: the identifier, its own
/// annotation lists, and whether it is fieldless.
#[derive(Clone, Debug)]
pub struct RawVariant {
    pub ident: String,
    pub attrs: Vec<Vec<AttrEntry>>,
    pub is_unit: bool,
}

/// The style the raw annotation lists select, if any.
pub open spec fn raw_requested_style(lists: Seq<Vec<AttrEntry>>) -> Option<CaseStyle> {
    match attrs_value(lists, "value_style"@) {
        Some(s) => style_of_name(s),
        None => Some(CaseStyle::Snake),
    }
}

/// The wire string of one raw variant: the `rename` entry always wins,
/// otherwise the identifier converted under the style.
pub open spec fn raw_wire_name(v: RawVariant, style: CaseStyle) -> Seq<char> {
    match attrs_value(v.attrs@, "rename"@) {
        Some(r) => r,
        None => stylized(v.ident@, style),
    }
}

/// The error a raw declaration is rejected with, if any.
pub open spec fn raw_config_error(
    lists: Seq<Vec<AttrEntry>>,
    variants: Seq<RawVariant>,
    backends: Backends,
) -> Option<ConfigError> {
    if attrs_value(lists, "existing_type_path"@) is Some && !backends.postgres {
        Some(ConfigError::ExistingTypePathRequiresPostgres)
    } else if attrs_value(lists, "existing_type_path"@) is Some && attrs_value(
        lists,
        "pg_type"@,
    ) is Some {
        Some(ConfigError::ExistingTypePathWithPgType)
    } else if attrs_value(lists, "existing_type_path"@) is Some && attrs_value(
        lists,
        "diesel_type"@,
    ) is Some {
        Some(ConfigError::ExistingTypePathWithDieselType)
    } else if raw_requested_style(lists) is None {
        Some(ConfigError::UnsupportedCaseStyle)
    } else if exists|i: int| 0 <= i < variants.len() && !(#[trigger] variants[i]).is_unit {
        Some(ConfigError::NonUnitVariant)
    } else {
        None
    }
}

/// What a plan accepted for a raw declaration must hold, field by field.
pub open spec fn raw_plan_matches(
    p: Plan,
    name: Seq<char>,
    lists: Seq<Vec<AttrEntry>>,
    variants: Seq<RawVariant>,
    backends: Backends,
) -> bool {
    &&& p.pg_internal_type@ == (match attrs_value(lists, "pg_type"@) {
        Some(t) => t,
        None => snake_of(name),
    })
    &&& (match attrs_value(lists, "existing_type_path"@) {
        Some(path) => p.mapping matches MappingRef::Existing(e) && e@ == path,
        None => p.mapping matches MappingRef::New(n) && n@ == (match attrs_value(
            lists,
            "diesel_type"@,
        ) {
            Some(d) => d,
            None => name + "Mapping"@,
        }),
    })
    &&& p.module_name@ == "db_enum_impl_"@ + name
    &&& p.wire_names@.len() == variants.len()
    &&& (forall|i: int|
        0 <= i < variants.len() ==> (#[trigger] p.wire_names@[i])@ == raw_wire_name(
            variants[i],
            raw_requested_style(lists)->0,
        ))
    &&& p.with_clone == has_attr(lists, "impl_clone_on_sql_type"@)
    &&& p.emit_new_mapping == (attrs_value(lists, "existing_type_path"@) is None)
    &&& p.emit_pg == backends.postgres
    &&& p.emit_mysql == backends.mysql
    &&& p.emit_sqlite == backends.sqlite
}

/// Read the type-level configuration off the annotation lists.
pub fn read_type_attrs(lists: &Vec<Vec<AttrEntry>>) -> (r: TypeAttrs)
    ensures
        opt_view(r.existing_type_path) == attrs_value(lists@, "existing_type_path"@),
        opt_view(r.pg_type) == attrs_value(lists@, "pg_type"@),
        opt_view(r.diesel_type) == attrs_value(lists@, "diesel_type"@),
        opt_view(r.value_style) == attrs_value(lists@, "value_style"@),
        r.impl_clone_on_sql_type == has_attr(lists@, "impl_clone_on_sql_type"@),
{
    TypeAttrs {
        existing_type_path: attr_value(lists, "existing_type_path"),
        pg_type: attr_value(lists, "pg_type"),
        diesel_type: attr_value(lists, "diesel_type"),
        value_style: attr_value(lists, "value_style"),
        impl_clone_on_sql_type: attr_flag(lists, "impl_clone_on_sql_type"),
    }
}

/// Read one variant: its `rename` entry, if any, decides the override.
pub fn read_variant(v: &RawVariant) -> (r: VariantInfo)
    ensures
        r.ident@ == v.ident@,
        opt_view(r.rename) == attrs_value(v.attrs@, "rename"@),
        r.is_unit == v.is_unit,
{
    VariantInfo {
        ident: v.ident.clone(),
        rename: attr_value(&v.attrs, "rename"),
        is_unit: v.is_unit,
    }
}

/// Decide everything for one annotated declaration: read the configuration
/// and resolve it to the emission plan, or reject it.
pub fn derive_plan(
    name: &String,
    type_attrs: &Vec<Vec<AttrEntry>>,
    variants: &Vec<RawVariant>,
    backends: &Backends,
) -> (r: Result<Plan, ConfigError>)
    ensures
        r is Err <==> raw_config_error(type_attrs@, variants@, *backends) is Some,
        r matches Err(e) ==> Some(e) == raw_config_error(type_attrs@, variants@, *backends),
        r matches Ok(p) ==> raw_plan_matches(p, name@, type_attrs@, variants@, *backends),
{
    let attrs = read_type_attrs(type_attrs);
    let mut infos: Vec<VariantInfo> = Vec::new();
    let n = variants.len();
    let mut i: usize = 0;
    while i < n
        invariant
            n == variants@.len(),
            i <= n,
            infos@.len() == i,
            forall|k: int|
                0 <= k < i ==> {
                    let v = #[trigger] infos@[k];
                    &&& v.ident@ == variants@[k].ident@
                    &&& opt_view(v.rename) == attrs_value(variants@[k].attrs@, "rename"@)
                    &&& v.is_unit == variants@[k].is_unit
                },
        decreases n - i,
    {
        let vi = read_variant(&variants[i]);
        infos.push(vi);
        i = i + 1;
    }
    let info = EnumInfo { name: name.clone(), variants: infos };
    let r = resolve(&info, &attrs, backends);
    proof {
        lemma_raw_bridge(info, attrs, *backends, name@, type_attrs@, variants@);
        if r is Ok {
            lemma_raw_plan_bridge(r->Ok_0, info, attrs, *backends, name@, type_attrs@, variants@);
        }
    }
    r
}

/// The raw characterization and the resolved one agree on acceptance and
/// on the error.
proof fn lemma_raw_bridge(
    info: EnumInfo,
    attrs: TypeAttrs,
    backends: Backends,
    name: Seq<char>,
    lists: Seq<Vec<AttrEntry>>,
    variants: Seq<RawVariant>,
)
    requires
        info.name@ == name,
        info.variants@.len() == variants.len(),
        forall|k: int|
            0 <= k < variants.len() ==> {
                let v = #[trigger] info.variants@[k];
                &&& v.ident@ == variants[k].ident@
                &&& opt_view(v.rename) == attrs_value(variants[k].attrs@, "rename"@)
                &&& v.is_unit == variants[k].is_unit
            },
        opt_view(attrs.existing_type_path) == attrs_value(lists, "existing_type_path"@),
        opt_view(attrs.pg_type) == attrs_value(lists, "pg_type"@),
        opt_view(attrs.diesel_type) == attrs_value(lists, "diesel_type"@),
        opt_view(attrs.value_style) == attrs_value(lists, "value_style"@),
        attrs.impl_clone_on_sql_type == has_attr(lists, "impl_clone_on_sql_type"@),
    ensures
        config_error_of(info, attrs, backends) == raw_config_error(lists, variants, backends),
{
    assert(crate::plan::requested_style(attrs) == raw_requested_style(lists));
    assert((exists|i: int|
        0 <= i < info.variants@.len() && !(#[trigger] info.variants@[i]).is_unit) == (exists|i: int|
        0 <= i < variants.len() && !(#[trigger] variants[i]).is_unit)) by {
        if exists|i: int| 0 <= i < info.variants@.len() && !(#[trigger] info.variants@[i]).is_unit {
            let i = choose|i: int|
                0 <= i < info.variants@.len() && !(#[trigger] info.variants@[i]).is_unit;
            assert(!variants[i].is_unit);
        }
        if exists|i: int| 0 <= i < variants.len() && !(#[trigger] variants[i]).is_unit {
            let i = choose|i: int| 0 <= i < variants.len() && !(#[trigger] variants[i]).is_unit;
            assert(!info.variants@[i].is_unit);
        }
    }
}

/// A plan that matches the resolved configuration matches the raw one.
proof fn lemma_raw_plan_bridge(
    p: Plan,
    info: EnumInfo,
    attrs: TypeAttrs,
    backends: Backends,
    name: Seq<char>,
    lists: Seq<Vec<AttrEntry>>,
    variants: Seq<RawVariant>,
)
    requires
        plan_matches(p, info, attrs, backends),
        info.name@ == name,
        info.variants@.len() == variants.len(),
        forall|k: int|
            0 <= k < variants.len() ==> {
                let v = #[trigger] info.variants@[k];
                &&& v.ident@ == variants[k].ident@
                &&& opt_view(v.rename) == attrs_value(variants[k].attrs@, "rename"@)
                &&& v.is_unit == variants[k].is_unit
            },
        opt_view(attrs.existing_type_path) == attrs_value(lists, "existing_type_path"@),
        opt_view(attrs.pg_type) == attrs_value(lists, "pg_type"@),
        opt_view(attrs.diesel_type) == attrs_value(lists, "diesel_type"@),
        opt_view(attrs.value_style) == attrs_value(lists, "value_style"@),
        attrs.impl_clone_on_sql_type == has_attr(lists, "impl_clone_on_sql_type"@),
    ensures
        raw_plan_matches(p, name, lists, variants, backends),
{
    assert(crate::plan::requested_style(attrs) == raw_requested_style(lists));
    assert forall|i: int| 0 <= i < variants.len() implies (#[trigger] p.wire_names@[i])@
        == raw_wire_name(variants[i], raw_requested_style(lists)->0) by {
        assert(p.wire_names@[i]@ == crate::plan::wire_name_of(
            info.variants@[i],
            crate::plan::requested_style(attrs)->0,
        ));
    }
}

} // verus!
