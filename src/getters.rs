//! The simplest getter derive: a copying getter for each field with a `get`
//! attribute.

use vstd::prelude::*;
use vstd::string::*;

use crate::generate::{last_named, last_named_spec, same_text, vis_text};
use crate::model::{Field, GenError, MetaValue};

verus! {

/// A copying getter, `fn name(&self) -> T`, with the visibility that a `get`
/// attribute gives as its string.
pub open spec fn getter_spec(field: Field) -> Result<Seq<char>, GenError> {
    match field.ident {
        None => Err(GenError::UnnamedField),
        Some(ident) => match last_named_spec(field.attrs@, "get"@) {
            None => Ok(Seq::empty()),
            Some(a) => match a.meta.value {
                MetaValue::Path => Ok(copy_getter_text(None, ident@, field.ty.text@)),
                MetaValue::Str(s) => Ok(copy_getter_text(Some(s@), ident@, field.ty.text@)),
                _ => Ok(Seq::empty()),
            },
        },
    }
}

pub open spec fn copy_getter_text(vis: Option<Seq<char>>, ident: Seq<char>, ty: Seq<char>) -> Seq<
    char,
> {
    vis_text(vis) + "fn "@ + ident + "(&self) -> "@ + ty + " { self."@ + ident + " }"@
}

fn copy_getter_of(vis: Option<&String>, ident: &str, ty: &str) -> (r: String)
    ensures
        r@ == copy_getter_text(
            match vis {
                Some(v) => Some(v@),
                None => None,
            },
            ident@,
            ty@,
        ),
{
    let mut r = String::new();
    if let Some(v) = vis {
        r.append(v.as_str());
        r.append(" ");
    }
    r.append("fn ");
    r.append(ident);
    r.append("(&self) -> ");
    r.append(ty);
    r.append(" { self.");
    r.append(ident);
    r.append(" }");
    r
}

/// The copying getter that the last `get` attribute of a field asks for.
pub fn implement(field: &Field) -> (r: Result<String, GenError>)
    ensures
        same_text(r, getter_spec(*field)),
{
    let ident = match &field.ident {
        None => {
            return Err(GenError::UnnamedField);
        },
        Some(i) => i,
    };
    match last_named(&field.attrs, "get") {
        None => Ok(String::new()),
        Some(a) => match &a.meta.value {
            MetaValue::Path => Ok(copy_getter_of(None, ident.as_str(), field.ty.text.as_str())),
            MetaValue::Str(s) => Ok(copy_getter_of(Some(s), ident.as_str(), field.ty.text.as_str())),
            _ => Ok(String::new()),
        },
    }
}

} // verus!
