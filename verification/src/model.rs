//! Plain-value descriptions of the parts of an entity struct that the
//! relation and model-field logic reads: the field, its type and its
//! attributes, and what the crate's own attribute readers report for it.
use vstd::prelude::*;

verus! {

/// A field type as the relation logic reads it.
pub struct TypeModel {
    /// The type's token text, as its token stream prints.
    pub tokens: String,
    /// The segments of the type's path, when the type is a path type.
    pub path: Option<Vec<PathSegmentModel>>,
}

/// One segment of a path type, such as `Option<Box<Entity>>` or `Entity`.
pub struct PathSegmentModel {
    /// The segment's identifier.
    pub ident: String,
    /// The segment's first generic argument, when its arguments are
    /// angle-bracketed and the first of them is a type.
    pub first_type_arg: Option<Box<TypeModel>>,
}

/// An attribute on a field, such as `#[sea_orm(has_many, via = "post_tag")]`.
pub struct AttrModel {
    /// The attribute's path, when that path is a single identifier.
    pub path_ident: Option<String>,
    /// The token text inside the parentheses, when the attribute is a list.
    pub list_tokens: Option<String>,
}

/// A boolean setting that the crate's attribute reader reports for a field
/// (such as `create_model` or `non_db_attr`).
pub struct CrudcrateFlag {
    pub key: String,
    pub value: bool,
}

/// The join configuration of a field.
pub struct JoinSettings {
    /// Whether the join is loaded in list queries (`join(all)`).
    pub on_all: bool,
}

/// A field of an entity struct.
pub struct FieldModel {
    /// The field's name, when it has one.
    pub ident: Option<String>,
    /// The field's type.
    pub ty: TypeModel,
    /// The field's attributes, in order.
    pub attrs: Vec<AttrModel>,
    /// The boolean settings reported for the field; where a key is listed
    /// twice, the first entry counts.
    pub crudcrate_flags: Vec<CrudcrateFlag>,
    /// The token text of the field's `on_create` expression, when it has one.
    pub on_create: Option<String>,
    /// The field's join configuration, when it has one.
    pub join: Option<JoinSettings>,
    /// Whether the field's type is optional.
    pub is_optional: bool,
}

/// The last segment of `ty`'s path, when `ty` is a path type with segments.
pub open spec fn last_segment(ty: TypeModel) -> Option<PathSegmentModel> {
    match ty.path {
        Some(segs) => if segs@.len() > 0 {
            Some(segs@.last())
        } else {
            None
        },
        None => None,
    }
}

/// The setting reported for `key`: the first entry with that key.
pub open spec fn flag_value(flags: Seq<CrudcrateFlag>, key: Seq<char>) -> Option<bool>
    decreases flags.len(),
{
    if flags.len() == 0 {
        None
    } else if flags[0].key@ == key {
        Some(flags[0].value)
    } else {
        flag_value(flags.drop_first(), key)
    }
}

/// The last segment of `ty`'s path.
pub fn last_segment_of(ty: &TypeModel) -> (r: Option<&PathSegmentModel>)
    ensures
        match r {
            Some(seg) => last_segment(*ty) == Some(*seg),
            None => last_segment(*ty) is None,
        },
{
    match &ty.path {
        Some(segs) => {
            let n = segs.len();
            if n > 0 {
                Some(&segs[n - 1])
            } else {
                None
            }
        },
        None => None,
    }
}

impl FieldModel {
    /// The setting reported for `key`, if any.
    pub fn crudcrate_bool(&self, key: &str) -> (r: Option<bool>)
        ensures
            r == flag_value(self.crudcrate_flags@, key@),
    {
        let flags = &self.crudcrate_flags;
        let n = flags.len();
        let mut i: usize = 0;
        assert(flags@.subrange(0, n as int) =~= flags@);
        while i < n
            invariant
                flags@ == self.crudcrate_flags@,
                n == flags@.len(),
                i <= n,
                flag_value(flags@, key@) == flag_value(flags@.subrange(i as int, n as int), key@),
            decreases n - i,
        {
            assert(flags@.subrange(i as int, n as int).drop_first() =~= flags@.subrange(
                i + 1,
                n as int,
            ));
            assert(flags@.subrange(i as int, n as int)[0] == flags@[i as int]);
            if crate::text::str_eq(flags[i].key.as_str(), key) {
                assert(flags@.subrange(i as int, n as int)[0].key@ == key@);
                assert(flag_value(flags@.subrange(i as int, n as int), key@) == Some(
                    flags@[i as int].value,
                ));
                return Some(flags[i].value);
            }
            i = i + 1;
        }
        None
    }
}

} // verus!
