//! The mapping-type resolver: from the enum declaration, its attribute
//! configuration and the set of enabled backends to the emission plan — or
//! to the configuration error that rejects the declaration.

use vstd::prelude::*;
use vstd::string::*;
use crate::case_style::CaseStyle;
use crate::case_style::snake_of;
use crate::case_style::style_of_name;
use crate::case_style::stylize_value;
use crate::case_style::stylized;
use crate::case_style::to_snake;

verus! {

/// One variant of the annotated enum: its identifier, the wire-name
/// override if one was given, and whether it is fieldless.
#[derive(Clone, Debug)]
pub struct VariantInfo {
    pub ident: String,
    pub rename: Option<String>,
    pub is_unit: bool,
}

/// The annotated enum: its name and its variants.
#[derive(Clone, Debug)]
pub struct EnumInfo {
    pub name: String,
    pub variants: Vec<VariantInfo>,
}

/// The type-level attribute configuration.
#[derive(Clone, Debug)]
pub struct TypeAttrs {
    pub existing_type_path: Option<String>,
    pub pg_type: Option<String>,
    pub diesel_type: Option<String>,
    pub value_style: Option<String>,
    pub impl_clone_on_sql_type: bool,
}

/// Which backends the consuming build has enabled.
#[derive(Clone, Copy, Debug, PartialEq, Eq, Structural)]
pub struct Backends {
    pub postgres: bool,
    pub mysql: bool,
    pub sqlite: bool,
}

/// Why a declaration is rejected at build time.
#[derive(Clone, Copy, Debug, PartialEq, Eq, Structural)]
pub enum ConfigError {
    /// `existing_type_path` was given while the postgres backend is off.
    ExistingTypePathRequiresPostgres,
    /// `existing_type_path` and `pg_type` were both given.
    ExistingTypePathWithPgType,
    /// `existing_type_path` and `diesel_type` were both given.
    ExistingTypePathWithDieselType,
    /// `value_style` names no known case style.
    UnsupportedCaseStyle,
    /// A variant carries fields.
    NonUnitVariant,
}

/// The SQL-type marker the emitted impls bind to: a path supplied by the
/// user, or a new marker type to synthesize under the given name.
#[derive(Clone, Debug)]
pub enum MappingRef {
    Existing(String),
    New(String),
}

/// Everything the emitter needs: the marker type, the name of the
/// database-side type, the module that wraps the impls, the wire string of
/// each variant in declaration order, and which impl blocks to emit.
#[derive(Clone, Debug)]
pub struct Plan {
    pub mapping: MappingRef,
    pub pg_internal_type: String,
    pub module_name: String,
    pub wire_names: Vec<String>,
    pub with_clone: bool,
    pub emit_new_mapping: bool,
    pub emit_pg: bool,
    pub emit_mysql: bool,
    pub emit_sqlite: bool,
}

/// The style the configuration selects: the named one, or snake_case when
/// none is named. Nothing when the name is unknown.
pub open spec fn requested_style(attrs: TypeAttrs) -> Option<CaseStyle> {
    match attrs.value_style {
        Some(s) => style_of_name(s@),
        None => Some(CaseStyle::Snake),
    }
}

/// The wire string of one variant: the override always wins, otherwise the
/// identifier converted under the style.
pub open spec fn wire_name_of(v: VariantInfo, style: CaseStyle) -> Seq<char> {
    match v.rename {
        Some(r) => r@,
        None => stylized(v.ident@, style),
    }
}

/// The error a configuration is rejected with, if any, in the order the
/// checks are made: the `existing_type_path` conflicts, then the style
/// name, then the variant shapes.
pub open spec fn config_error_of(info: EnumInfo, attrs: TypeAttrs, backends: Backends) -> Option<
    ConfigError,
> {
    if attrs.existing_type_path is Some && !backends.postgres {
        Some(ConfigError::ExistingTypePathRequiresPostgres)
    } else if attrs.existing_type_path is Some && attrs.pg_type is Some {
        Some(ConfigError::ExistingTypePathWithPgType)
    } else if attrs.existing_type_path is Some && attrs.diesel_type is Some {
        Some(ConfigError::ExistingTypePathWithDieselType)
    } else if requested_style(attrs) is None {
        Some(ConfigError::UnsupportedCaseStyle)
    } else if exists|i: int|
        0 <= i < info.variants@.len() && !(#[trigger] info.variants@[i]).is_unit {
        Some(ConfigError::NonUnitVariant)
    } else {
        None
    }
}

/// What an accepted plan must hold, field by field.
pub open spec fn plan_matches(p: Plan, info: EnumInfo, attrs: TypeAttrs, backends: Backends) -> bool {
    &&& p.pg_internal_type@ == (match attrs.pg_type {
        Some(t) => t@,
        None => snake_of(info.name@),
    })
    &&& (match attrs.existing_type_path {
        Some(path) => p.mapping matches MappingRef::Existing(e) && e@ == path@,
        None => p.mapping matches MappingRef::New(n) && n@ == (match attrs.diesel_type {
            Some(d) => d@,
            None => info.name@ + "Mapping"@,
        }),
    })
    &&& p.module_name@ == "db_enum_impl_"@ + info.name@
    &&& p.wire_names@.len() == info.variants@.len()
    &&& (forall|i: int|
        0 <= i < info.variants@.len() ==> (#[trigger] p.wire_names@[i])@ == wire_name_of(
            info.variants@[i],
            requested_style(attrs)->0,
        ))
    &&& p.with_clone == attrs.impl_clone_on_sql_type
    &&& p.emit_new_mapping == (attrs.existing_type_path is None)
    &&& p.emit_pg == backends.postgres
    &&& p.emit_mysql == backends.mysql
    &&& p.emit_sqlite == backends.sqlite
}

/// The override always wins: in an accepted plan, a variant that carries a
/// rename gets exactly that string as its wire name, whatever style the
/// configuration selects.
pub proof fn lemma_override_wins(
    p: Plan,
    info: EnumInfo,
    attrs: TypeAttrs,
    backends: Backends,
    i: int,
)
    requires
        plan_matches(p, info, attrs, backends),
        0 <= i < info.variants@.len(),
        info.variants@[i].rename is Some,
    ensures
        p.wire_names@[i]@ == info.variants@[i].rename->0@,
{
}

/// The default name of a synthesized marker type: the enum's name with
/// `Mapping` appended.
pub fn mapping_name_default(name: &str) -> (r: String)
    ensures
        r@ == name@ + "Mapping"@,
{
    String::from_str(name).concat("Mapping")
}

/// The name of the module that wraps the emitted impls.
pub fn module_name_for(name: &str) -> (r: String)
    ensures
        r@ == "db_enum_impl_"@ + name@,
{
    String::from_str("db_enum_impl_").concat(name)
}

/// Resolve a declaration to its emission plan, or reject it.
#[verifier::loop_isolation(false)]
pub fn resolve(info: &EnumInfo, attrs: &TypeAttrs, backends: &Backends) -> (r: Result<
    Plan,
    ConfigError,
>)
    ensures
        r is Err <==> config_error_of(*info, *attrs, *backends) is Some,
        r matches Err(e) ==> Some(e) == config_error_of(*info, *attrs, *backends),
        r matches Ok(p) ==> plan_matches(p, *info, *attrs, *backends),
{
    if attrs.existing_type_path.is_some() && !backends.postgres {
        return Err(ConfigError::ExistingTypePathRequiresPostgres);
    }
    if attrs.existing_type_path.is_some() && attrs.pg_type.is_some() {
        return Err(ConfigError::ExistingTypePathWithPgType);
    }
    if attrs.existing_type_path.is_some() && attrs.diesel_type.is_some() {
        return Err(ConfigError::ExistingTypePathWithDieselType);
    }
    let style = match &attrs.value_style {
        Some(s) => {
            match CaseStyle::from_string(s.as_str()) {
                Some(st) => st,
                None => {
                    return Err(ConfigError::UnsupportedCaseStyle);
                },
            }
        },
        None => CaseStyle::Snake,
    };
    proof {
        assert(requested_style(*attrs) == Some(style));
    }
    let n = info.variants.len();
    let mut i: usize = 0;
    while i < n
        invariant
            n == info.variants@.len(),
            i <= n,
            forall|k: int| 0 <= k < i ==> (#[trigger] info.variants@[k]).is_unit,
        decreases n - i,
    {
        if !info.variants[i].is_unit {
            proof {
                assert(!info.variants@[i as int].is_unit);
            }
            return Err(ConfigError::NonUnitVariant);
        }
        i = i + 1;
    }
    let mut wire_names: Vec<String> = Vec::new();
    let mut i: usize = 0;
    while i < n
        invariant
            n == info.variants@.len(),
            i <= n,
            wire_names@.len() == i,
            forall|k: int|
                0 <= k < i ==> (#[trigger] wire_names@[k])@ == wire_name_of(
                    info.variants@[k],
                    style,
                ),
        decreases n - i,
    {
        let v = &info.variants[i];
        let name = match &v.rename {
            Some(r) => r.clone(),
            None => stylize_value(v.ident.as_str(), style),
        };
        wire_names.push(name);
        i = i + 1;
    }
    let pg_internal_type = match &attrs.pg_type {
        Some(t) => t.clone(),
        None => to_snake(info.name.as_str()),
    };
    let mapping = match &attrs.existing_type_path {
        Some(p) => MappingRef::Existing(p.clone()),
        None => MappingRef::New(
            match &attrs.diesel_type {
                Some(d) => d.clone(),
                None => mapping_name_default(info.name.as_str()),
            },
        ),
    };
    let module_name = module_name_for(info.name.as_str());
    Ok(
        Plan {
            mapping,
            pg_internal_type,
            module_name,
            wire_names,
            with_clone: attrs.impl_clone_on_sql_type,
            emit_new_mapping: attrs.existing_type_path.is_none(),
            emit_pg: backends.postgres,
            emit_mysql: backends.mysql,
            emit_sqlite: backends.sqlite,
        },
    )
}

} // verus!
