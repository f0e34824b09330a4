//! The entity schema compiler: from one entity declaration it derives the
//! three record shapes (for-create, for-update, filter) and the controller's
//! collection name. Generation is a pure function of the declaration:
//! identical input yields identical shapes and an identical collection-name
//! string.

use vstd::prelude::*;

verus! {

/// The shape of a field declaration.
pub struct FieldDeclV {
    pub name: Seq<char>,
    pub optional: bool,
    pub skip_create: bool,
    pub skip_update: bool,
    pub skip_filter: bool,
}

/// One field of an entity declaration: its name, whether its type is
/// already optional, and which derived shapes it is excluded from.
#[derive(Debug)]
pub struct FieldDecl {
    pub name: String,
    pub optional: bool,
    pub skip_create: bool,
    pub skip_update: bool,
    pub skip_filter: bool,
}

impl View for FieldDecl {
    type V = FieldDeclV;

    open spec fn view(&self) -> FieldDeclV {
        FieldDeclV {
            name: self.name@,
            optional: self.optional,
            skip_create: self.skip_create,
            skip_update: self.skip_update,
            skip_filter: self.skip_filter,
        }
    }
}

/// An entity declaration: the single source of truth a record family is
/// derived from.
#[derive(Debug)]
pub struct EntityDecl {
    pub name: String,
    pub fields: Vec<FieldDecl>,
}

/// The three derived record shapes.
#[derive(Debug, Clone, Copy, PartialEq, Eq, Structural)]
pub enum ShapeKind {
    Create,
    Update,
    Filter,
}

/// Whether a declared field is left out of the derived shape of this kind:
/// the identifier is excluded from create and update shapes, and each shape
/// honours its own exclusion mark.
pub open spec fn excluded(f: FieldDeclV, kind: ShapeKind) -> bool {
    match kind {
        ShapeKind::Create => f.name == "id"@ || f.skip_create,
        ShapeKind::Update => f.name == "id"@ || f.skip_update,
        ShapeKind::Filter => f.skip_filter,
    }
}

/// A derived field: the declared field with its type made optional.
pub open spec fn wrapped(f: FieldDeclV) -> FieldDeclV {
    FieldDeclV {
        name: f.name,
        optional: true,
        skip_create: f.skip_create,
        skip_update: f.skip_update,
        skip_filter: f.skip_filter,
    }
}

/// The fields of the derived shape of the given kind, in declaration order.
pub open spec fn derived_fields(fs: Seq<FieldDeclV>, kind: ShapeKind) -> Seq<FieldDeclV>
    decreases fs.len(),
{
    if fs.len() == 0 {
        Seq::empty()
    } else {
        let front = derived_fields(fs.drop_last(), kind);
        if excluded(fs.last(), kind) {
            front
        } else {
            front.push(wrapped(fs.last()))
        }
    }
}

/// The shapes of a declared field list.
pub open spec fn fields_view(fs: Seq<FieldDecl>) -> Seq<FieldDeclV> {
    fs.map_values(|f: FieldDecl| f@)
}

/// The derived record shapes and the collection name of one entity
/// declaration.
#[derive(Debug)]
pub struct GeneratedSchema {
    pub table_name: String,
    pub create_fields: Vec<FieldDecl>,
    pub update_fields: Vec<FieldDecl>,
    pub filter_fields: Vec<FieldDecl>,
}

/// Whether a declared field's type is already optional.
pub fn is_option(f: &FieldDecl) -> (r: bool)
    ensures
        r == f@.optional,
{
    f.optional
}

/// The declared field with its type made optional (left as it is when it
/// already was).
pub fn wrap_in_option(f: &FieldDecl) -> (r: FieldDecl)
    ensures
        r@ == wrapped(f@),
{
    FieldDecl {
        name: f.name.clone(),
        optional: true,
        skip_create: f.skip_create,
        skip_update: f.skip_update,
        skip_filter: f.skip_filter,
    }
}

/// Whether the field carries the named exclusion mark.
pub fn has_skip_attribute(f: &FieldDecl, attr_name: &String) -> (r: bool)
    ensures
        r == (attr_name@ == "skip_create"@ && f@.skip_create || attr_name@ == "skip_update"@
            && f@.skip_update || attr_name@ == "skip_filter"@ && f@.skip_filter),
{
    proof {
        reveal_strlit("skip_create");
        reveal_strlit("skip_update");
        reveal_strlit("skip_filter");
        assert("skip_create"@[5] == 'c' && "skip_update"@[5] == 'u' && "skip_filter"@[5] == 'f');
    }
    if *attr_name == "skip_create".to_owned() {
        f.skip_create
    } else if *attr_name == "skip_update".to_owned() {
        f.skip_update
    } else if *attr_name == "skip_filter".to_owned() {
        f.skip_filter
    } else {
        false
    }
}

/// Derives the field list of one record shape.
fn derive_field_list(fields: &Vec<FieldDecl>, kind: ShapeKind) -> (r: Vec<FieldDecl>)
    ensures
        fields_view(r@) == derived_fields(fields_view(fields@), kind),
{
    let ghost fv = fields_view(fields@);
    let id_name = "id".to_owned();
    let mut out: Vec<FieldDecl> = Vec::new();
    let n = fields.len();
    let mut i: usize = 0;
    proof {
        assert(fv.take(0) =~= Seq::<FieldDeclV>::empty());
        assert(fields_view(out@) =~= derived_fields(fv.take(0), kind));
    }
    while i < n
        invariant
            0 <= i <= n,
            n == fields@.len(),
            fv == fields_view(fields@),
            fv.len() == n,
            id_name@ == "id"@,
            fields_view(out@) == derived_fields(fv.take(i as int), kind),
        decreases n - i,
    {
        proof {
            assert(fv.take(i as int + 1).drop_last() =~= fv.take(i as int));
            assert(fv.take(i as int + 1).last() == fv[i as int]);
            assert(fv[i as int] == fields@[i as int]@);
        }
        let f = &fields[i];
        let is_excluded: bool = match kind {
            ShapeKind::Create => crate::value::string_eq(&f.name, &id_name) || f.skip_create,
            ShapeKind::Update => crate::value::string_eq(&f.name, &id_name) || f.skip_update,
            ShapeKind::Filter => f.skip_filter,
        };
        if !is_excluded {
            out.push(wrap_in_option(f));
        }
        proof {
            assert(fields_view(out@) =~= derived_fields(fv.take(i as int + 1), kind));
        }
        i = i + 1;
    }
    proof {
        assert(fv.take(n as int) =~= fv);
    }
    out
}

/// Derives, from one entity declaration, the for-create, for-update and
/// filter record shapes and the controller's collection name
/// `<EntityName>Controller`. The derivation is a pure function of the
/// declaration: its whole result is pinned here, so identical declarations
/// always generate identical schemas.
pub fn crud(decl: &EntityDecl) -> (r: GeneratedSchema)
    ensures
        r.table_name@ == decl.name@ + "Controller"@,
        fields_view(r.create_fields@) == derived_fields(
            fields_view(decl.fields@),
            ShapeKind::Create,
        ),
        fields_view(r.update_fields@) == derived_fields(
            fields_view(decl.fields@),
            ShapeKind::Update,
        ),
        fields_view(r.filter_fields@) == derived_fields(
            fields_view(decl.fields@),
            ShapeKind::Filter,
        ),
{
    let table_name = decl.name.clone().concat("Controller");
    let create_fields = derive_field_list(&decl.fields, ShapeKind::Create);
    let update_fields = derive_field_list(&decl.fields, ShapeKind::Update);
    let filter_fields = derive_field_list(&decl.fields, ShapeKind::Filter);
    GeneratedSchema { table_name, create_fields, update_fields, filter_fields }
}

} // verus!
