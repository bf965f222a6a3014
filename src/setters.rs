//! The simplest setter derive: a setter for each field with a `set`
//! attribute.

use vstd::prelude::*;
use vstd::string::*;

use crate::generate::{docs_of, docs_text, last_named, last_named_spec, same_text, vis_text};
use crate::model::{Field, GenError, MetaValue};

verus! {

/// A setter, `fn set_name(&mut self, val: T)`, with the visibility that a
/// `set` attribute gives as its string.
pub open spec fn setter_spec(field: Field) -> Result<Seq<char>, GenError> {
    match field.ident {
        None => Err(GenError::UnnamedField),
        Some(ident) => match last_named_spec(field.attrs@, "set"@) {
            None => Ok(Seq::empty()),
            Some(a) => match a.meta.value {
                MetaValue::Path => Ok(
                    plain_setter_text(docs_text(field.attrs@), None, ident@, field.ty.text@),
                ),
                MetaValue::Str(s) => Ok(
                    plain_setter_text(docs_text(field.attrs@), Some(s@), ident@, field.ty.text@),
                ),
                _ => Err(GenError::UnexpectedParams),
            },
        },
    }
}

pub open spec fn plain_setter_text(
    docs: Seq<char>,
    vis: Option<Seq<char>>,
    ident: Seq<char>,
    ty: Seq<char>,
) -> Seq<char> {
    docs + vis_text(vis) + "fn set_"@ + ident + "(&mut self, val: "@ + ty + ") { self."@ + ident
        + " = val; }"@
}

fn plain_setter_of(docs: &str, vis: Option<&String>, ident: &str, ty: &str) -> (r: String)
    ensures
        r@ == plain_setter_text(
            docs@,
            match vis {
                Some(v) => Some(v@),
                None => None,
            },
            ident@,
            ty@,
        ),
{
    let mut r = String::from_str(docs);
    if let Some(v) = vis {
        r.append(v.as_str());
        r.append(" ");
    }
    r.append("fn set_");
    r.append(ident);
    r.append("(&mut self, val: ");
    r.append(ty);
    r.append(") { self.");
    r.append(ident);
    r.append(" = val; }");
    r
}

/// The setter that the last `set` attribute of a field asks for.
pub fn implement(field: &Field) -> (r: Result<String, GenError>)
    ensures
        same_text(r, setter_spec(*field)),
{
    let ident = match &field.ident {
        None => {
            return Err(GenError::UnnamedField);
        },
        Some(i) => i,
    };
    match last_named(&field.attrs, "set") {
        None => Ok(String::new()),
        Some(a) => {
            let docs = docs_of(&field.attrs);
            match &a.meta.value {
                MetaValue::Path => Ok(
                    plain_setter_of(docs.as_str(), None, ident.as_str(), field.ty.text.as_str()),
                ),
                MetaValue::Str(s) => Ok(
                    plain_setter_of(docs.as_str(), Some(s), ident.as_str(), field.ty.text.as_str()),
                ),
                _ => Err(GenError::UnexpectedParams),
            }
        },
    }
}

} // verus!
