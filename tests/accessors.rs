use getset::impl_getset::{collect_attr, produce};
use getset::model::{
    AttrArgs, Attribute, Data, DeriveInput, Field, FieldType, Fields, GenError, GenericArg, Meta,
    MetaValue, PathArgs, PathSegment, TypePath,
};
use getset::{clone_getters, copy_getters, getters, mut_getters, setters, with_setters};

fn item(path: &str) -> Meta {
    Meta { path: path.to_string(), value: MetaValue::Path }
}

fn item_str(path: &str, value: &str) -> Meta {
    Meta { path: path.to_string(), value: MetaValue::Str(value.to_string()) }
}

fn plain_attr(meta: Meta, text: String) -> Attribute {
    Attribute { meta, args: AttrArgs::Metas(Vec::new()), text }
}

fn word(path: &str) -> Attribute {
    plain_attr(item(path), format!("#[{}]", path))
}

fn name_value(path: &str, value: &str) -> Attribute {
    plain_attr(item_str(path, value), format!("#[{} = \"{}\"]", path, value))
}

fn getset(items: Vec<Meta>) -> Attribute {
    Attribute {
        meta: Meta { path: "getset".to_string(), value: MetaValue::List },
        args: AttrArgs::Metas(items),
        text: "#[getset]".to_string(),
    }
}

fn doc(line: &str) -> Attribute {
    plain_attr(item_str("doc", line), format!("#[doc = \"{}\"]", line))
}

fn ty(name: &str) -> FieldType {
    FieldType {
        text: name.to_string(),
        path: Some(TypePath {
            qself: false,
            segments: vec![PathSegment { ident: name.to_string(), args: PathArgs::Empty }],
        }),
    }
}

fn ty_args(segments: &[&str], args: &[&str]) -> FieldType {
    let n = segments.len();
    let mut segs = Vec::new();
    for (i, s) in segments.iter().enumerate() {
        let a = if i + 1 == n {
            PathArgs::AngleBracketed(args.iter().map(|t| GenericArg::Type(t.to_string())).collect())
        } else {
            PathArgs::Empty
        };
        segs.push(PathSegment { ident: s.to_string(), args: a });
    }
    FieldType {
        text: format!("{}<{}>", segments.join("::"), args.join(", ")),
        path: Some(TypePath { qself: false, segments: segs }),
    }
}

fn field(name: &str, ty: FieldType, attrs: Vec<Attribute>) -> Field {
    Field { attrs, ident: Some(name.to_string()), ty }
}

fn unnamed(ty: FieldType, attrs: Vec<Attribute>) -> Field {
    Field { attrs, ident: None, ty }
}

fn generic(
    name: &str,
    impl_generics: &str,
    ty_generics: &str,
    where_clause: &str,
    attrs: Vec<Attribute>,
    fields: Vec<Field>,
) -> DeriveInput {
    DeriveInput {
        attrs,
        ident: name.to_string(),
        impl_generics: impl_generics.to_string(),
        ty_generics: ty_generics.to_string(),
        where_clause: where_clause.to_string(),
        data: Data::Struct(Fields::Named(fields)),
    }
}

fn structure(name: &str, attrs: Vec<Attribute>, fields: Vec<Field>) -> DeriveInput {
    generic(name, "", "", "", attrs, fields)
}

fn tuple(name: &str, attrs: Vec<Attribute>, fields: Vec<Field>) -> DeriveInput {
    DeriveInput {
        attrs,
        ident: name.to_string(),
        impl_generics: String::new(),
        ty_generics: String::new(),
        where_clause: String::new(),
        data: Data::Struct(Fields::Unnamed(fields)),
    }
}

fn text(r: Result<String, GenError>) -> String {
    match r {
        Ok(t) => t,
        Err(e) => panic!("generation failed: {}", e.message()),
    }
}

fn has(out: &str, part: &str) {
    assert!(out.contains(part), "missing `{}` in `{}`", part, out);
}

fn lacks(out: &str, part: &str) {
    assert!(!out.contains(part), "unexpected `{}` in `{}`", part, out);
}

fn two_docs() -> Vec<Attribute> {
    vec![doc(" A doc comment."), doc(" Multiple lines, even.")]
}

fn with_docs(mut attrs: Vec<Attribute>, more: Vec<Attribute>) -> Vec<Attribute> {
    attrs.extend(more);
    attrs
}

// Mutable getters that borrow the inside of an `Option` or a `Result`.

fn for_as_mut() -> DeriveInput {
    structure(
        "ForAsMut",
        vec![],
        vec![
            field("inner", ty_args(&["Option"], &["usize"]), vec![getset(vec![item_str("get_mut", "as_mut")])]),
            field("inner_without_as_mut", ty_args(&["Option"], &["usize"]), vec![getset(vec![item("get_mut")])]),
            field(
                "inner_result",
                ty_args(&["Result"], &["usize", "String"]),
                vec![getset(vec![item_str("get_mut", "as_mut")])],
            ),
            field(
                "inner_result_without_as_mut",
                ty_args(&["Result"], &["usize", "String"]),
                vec![getset(vec![item("get_mut")])],
            ),
        ],
    )
}

#[test]
fn test_as_mut() {
    let out = text(mut_getters(&for_as_mut()));
    has(&out, "#[inline(always)] fn inner_mut(&mut self) -> Option<&mut usize> { self.inner.as_mut() }");
    has(
        &out,
        "#[inline(always)] fn inner_without_as_mut_mut(&mut self) -> &mut Option<usize> { &mut self.inner_without_as_mut }",
    );
    has(
        &out,
        "#[inline(always)] fn inner_result_mut(&mut self) -> Result<&mut usize, &mut String> { self.inner_result.as_mut() }",
    );
    has(
        &out,
        "#[inline(always)] fn inner_result_without_as_mut_mut(&mut self) -> &mut Result<usize, String> { &mut self.inner_result_without_as_mut }",
    );
}

#[test]
fn test_as_mut_unnamed() {
    let global = vec![getset(vec![item_str("get_mut", "as_mut")])];
    let out = text(mut_getters(&tuple("Unnamed", global.clone(), vec![unnamed(ty_args(&["Option"], &["usize"]), vec![])])));
    assert_eq!(
        out,
        "impl Unnamed  { #[inline(always)] fn get_mut(&mut self) -> Option<&mut usize> { self.0.as_mut() }}"
    );
    let out = text(mut_getters(&tuple(
        "UnnamedResult",
        global.clone(),
        vec![unnamed(ty_args(&["Result"], &["usize", "String"]), vec![])],
    )));
    has(&out, "fn get_mut(&mut self) -> Result<&mut usize, &mut String> { self.0.as_mut() }");
}

// Getters that borrow the inside of an `Option` or a `Result`.

fn for_as_ref() -> DeriveInput {
    structure(
        "ForAsRef",
        vec![],
        vec![
            field("inner", ty_args(&["Option"], &["usize"]), vec![getset(vec![item_str("get", "as_ref")])]),
            field("inner_without_as_ref", ty_args(&["Option"], &["usize"]), vec![getset(vec![item("get")])]),
            field(
                "inner_result",
                ty_args(&["Result"], &["usize", "String"]),
                vec![getset(vec![item_str("get", "as_ref")])],
            ),
            field(
                "inner_result_without_as_ref",
                ty_args(&["Result"], &["usize", "String"]),
                vec![getset(vec![item("get")])],
            ),
        ],
    )
}

#[test]
fn test_as_ref() {
    let out = text(getters(&for_as_ref()));
    has(&out, "#[inline(always)] fn inner(&self) -> Option<&usize> { self.inner.as_ref() }");
    has(
        &out,
        "#[inline(always)] fn inner_without_as_ref(&self) -> &Option<usize> { &self.inner_without_as_ref }",
    );
    has(
        &out,
        "#[inline(always)] fn inner_result(&self) -> Result<&usize, &String> { self.inner_result.as_ref() }",
    );
    has(
        &out,
        "#[inline(always)] fn inner_result_without_as_ref(&self) -> &Result<usize, String> { &self.inner_result_without_as_ref }",
    );
}

#[test]
fn test_as_ref_unnamed() {
    let global = vec![getset(vec![item_str("get", "as_ref")])];
    let out = text(getters(&tuple("Unnamed", global.clone(), vec![unnamed(ty_args(&["Option"], &["usize"]), vec![])])));
    assert_eq!(out, "impl Unnamed  { #[inline(always)] fn get(&self) -> Option<&usize> { self.0.as_ref() }}");
    let out = text(getters(&tuple(
        "UnnamedResult",
        global,
        vec![unnamed(ty_args(&["Result"], &["usize", "String"]), vec![])],
    )));
    has(&out, "fn get(&self) -> Result<&usize, &String> { self.0.as_ref() }");
}

// Mutable getters.

fn mut_fields(t: &str) -> Vec<Field> {
    vec![
        field("private_accessible", ty(t), two_docs()),
        field("public_accessible", ty(t), with_docs(vec![doc(" A doc comment.")], vec![name_value("get_mut", "pub")])),
        field("private_prefixed", ty(t), vec![name_value("get_mut", "with_prefix")]),
        field("public_prefixed", ty(t), vec![name_value("get_mut", "pub with_prefix")]),
    ]
}

fn check_mut_getters(out: &str, t: &str) {
    has(
        out,
        &format!(
            "#[doc = \" A doc comment.\"] #[doc = \" Multiple lines, even.\"] #[inline(always)] fn private_accessible_mut(&mut self) -> &mut {} {{ &mut self.private_accessible }}",
            t
        ),
    );
    has(out, &format!("fn get_private_prefixed_mut(&mut self) -> &mut {} {{ &mut self.private_prefixed }}", t));
    has(
        out,
        &format!(
            "#[doc = \" A doc comment.\"] #[inline(always)] pub fn public_accessible_mut(&mut self) -> &mut {} {{ &mut self.public_accessible }}",
            t
        ),
    );
    has(out, &format!("pub fn get_public_prefixed_mut(&mut self) -> &mut {} {{ &mut self.public_prefixed }}", t));
}

#[test]
fn mut_getters_test_plain() {
    let out = text(mut_getters(&structure("Plain", vec![word("get_mut")], mut_fields("usize"))));
    assert!(out.starts_with("impl Plain  { "));
    check_mut_getters(&out, "usize");
}

#[test]
fn mut_getters_test_generic() {
    let input = generic("Generic", "<T: Copy + Clone + Default>", "<T>", "", vec![word("get_mut")], mut_fields("T"));
    let out = text(mut_getters(&input));
    assert!(out.starts_with("impl<T: Copy + Clone + Default> Generic<T>  { "));
    check_mut_getters(&out, "T");
}

#[test]
fn mut_getters_test_where() {
    let input = generic(
        "Where",
        "<T>",
        "<T>",
        "where T: Copy + Clone + Default",
        vec![word("get_mut")],
        mut_fields("T"),
    );
    let out = text(mut_getters(&input));
    assert!(out.starts_with("impl<T> Where<T> where T: Copy + Clone + Default { "));
    check_mut_getters(&out, "T");
}

// Optional getters and setters of the request-based engine.

fn option_produce(input: &DeriveInput) -> String {
    let global = match collect_attr(&input.attrs) {
        Ok(g) => g,
        Err(e) => panic!("attributes refused: {}", e.message()),
    };
    text(produce(input, &global))
}

fn option_fields(t: &str) -> Vec<Field> {
    vec![
        field("private_accessible", ty_args(&["Option"], &[t]), two_docs()),
        field(
            "public_accessible",
            ty_args(&["Option"], &[t]),
            with_docs(vec![doc(" A doc comment.")], vec![name_value("get_option", "pub")]),
        ),
    ]
}

fn option_plain() -> DeriveInput {
    let mut fields = option_fields("String");
    fields.push(field("private_prefixed", ty_args(&["Option"], &["String"]), vec![name_value("get_option", "with_prefix")]));
    fields.push(field(
        "public_prefixed",
        ty_args(&["Option"], &["String"]),
        vec![name_value("get_option", "pub with_prefix")],
    ));
    structure("Plain", vec![word("get_option")], fields)
}

fn check_option_getters(out: &str, t: &str) {
    has(
        out,
        &format!(
            "#[doc = \" A doc comment.\"] #[doc = \" Multiple lines, even.\"] #[inline(always)] fn private_accessible(&self) -> Option<&{}> {{ self.private_accessible.as_ref() }}",
            t
        ),
    );
    has(
        out,
        &format!(
            "#[doc = \" A doc comment.\"] #[inline(always)] pub fn public_accessible(&self) -> Option<&{}> {{ self.public_accessible.as_ref() }}",
            t
        ),
    );
}

#[test]
fn option_getters_test_plain() {
    let out = option_produce(&option_plain());
    check_option_getters(&out, "String");
}

#[test]
fn option_getters_test_generic() {
    let input = generic("Generic", "<T: Copy + Clone + Default>", "<T>", "", vec![word("get_option")], option_fields("T"));
    let out = option_produce(&input);
    assert!(out.starts_with("impl<T: Copy + Clone + Default> Generic<T>  { "));
    check_option_getters(&out, "T");
}

#[test]
fn option_getters_test_where() {
    let input = generic(
        "Where",
        "<T>",
        "<T>",
        "where T: Copy + Clone + Default",
        vec![word("get_option")],
        option_fields("T"),
    );
    let out = option_produce(&input);
    assert!(out.starts_with("impl<T> Where<T> where T: Copy + Clone + Default { "));
    check_option_getters(&out, "T");
}

#[test]
fn option_getters_test_mixed() {
    let input = structure(
        "Mixed",
        vec![],
        vec![
            field("field", ty("usize"), vec![getset(vec![item_str("get", "pub")])]),
            field("optional_field", ty_args(&["Option"], &["usize"]), vec![getset(vec![item_str("get_option", "pub")])]),
        ],
    );
    let out = option_produce(&input);
    assert_eq!(
        out,
        "impl Mixed  { #[inline(always)] pub fn field(&self) -> &usize { &self.field }#[inline(always)] pub fn optional_field(&self) -> Option<&usize> { self.optional_field.as_ref() }}"
    );
}

#[test]
fn option_getters_test_prefixed_plain() {
    let out = option_produce(&option_plain());
    has(&out, "#[inline(always)] fn get_private_prefixed(&self) -> Option<&String> { self.private_prefixed.as_ref() }");
    has(&out, "#[inline(always)] pub fn get_public_prefixed(&self) -> Option<&String> { self.public_prefixed.as_ref() }");
}

fn option_path(segments: &[&str]) -> DeriveInput {
    structure(
        "OptionPath",
        vec![word("get_option")],
        vec![field("public_accessible", ty_args(segments, &["usize"]), vec![name_value("get_option", "pub")])],
    )
}

fn check_option_path(segments: &[&str]) {
    let out = option_produce(&option_path(segments));
    assert_eq!(
        out,
        "impl OptionPath  { #[inline(always)] pub fn public_accessible(&self) -> Option<&usize> { self.public_accessible.as_ref() }}"
    );
}

#[test]
fn test_option_path1() {
    check_option_path(&["std", "option", "Option"]);
}

#[test]
fn test_option_path2() {
    // `::std::option::Option`: a leading `::` leaves the segments as they are.
    check_option_path(&["std", "option", "Option"]);
}

#[test]
fn test_option_path3() {
    check_option_path(&["core", "option", "Option"]);
}

#[test]
fn test_option_path4() {
    check_option_path(&["core", "option", "Option"]);
}

// Skipped fields.

fn skip_plain() -> DeriveInput {
    structure(
        "Plain",
        vec![getset(vec![item("get_copy"), item("set"), item("set_with")])],
        vec![
            field("non_copyable", ty("String"), vec![getset(vec![item("skip")])]),
            field("copyable", ty("usize"), vec![]),
        ],
    )
}

#[test]
fn skip_test_plain() {
    let input = skip_plain();
    let copy = text(getset::copy_getters(&input));
    assert_eq!(copy, "impl Plain  { #[inline(always)] fn copyable(&self) -> usize { self.copyable }}");
    let set = text(setters(&input));
    lacks(&set, "set_non_copyable");
    has(&set, "#[inline(always)] fn set_copyable(&mut self, val: usize) -> &mut Self { self.copyable = val; self }");
    let with = text(with_setters(&input));
    lacks(&with, "with_non_copyable");
    has(&with, "#[inline(always)] fn with_copyable(mut self, val: usize) -> Self { self.copyable = val; self }");
}

// Chainable setters.

fn with_fields(t: &str) -> Vec<Field> {
    vec![
        field("private_accessible", ty(t), two_docs()),
        field("public_accessible", ty(t), with_docs(vec![doc(" A doc comment.")], vec![name_value("set_with", "pub")])),
    ]
}

fn with_plain() -> DeriveInput {
    let mut fields = with_fields("usize");
    fields.push(field(
        "second_public_accessible",
        ty("bool"),
        vec![doc(" This field is used for testing chaining."), name_value("set_with", "pub")],
    ));
    structure("Plain", vec![word("set_with")], fields)
}

fn check_with_setters(out: &str, t: &str) {
    has(
        out,
        &format!(
            "#[doc = \" A doc comment.\"] #[doc = \" Multiple lines, even.\"] #[inline(always)] fn with_private_accessible(mut self, val: {}) -> Self {{ self.private_accessible = val; self }}",
            t
        ),
    );
    has(
        out,
        &format!(
            "#[inline(always)] pub fn with_public_accessible(mut self, val: {}) -> Self {{ self.public_accessible = val; self }}",
            t
        ),
    );
}

#[test]
fn with_setters_test_plain() {
    check_with_setters(&text(with_setters(&with_plain())), "usize");
}

#[test]
fn with_setters_test_generic() {
    let input = generic("Generic", "<T: Copy + Clone + Default>", "<T>", "", vec![word("set_with")], with_fields("T"));
    let out = text(with_setters(&input));
    assert!(out.starts_with("impl<T: Copy + Clone + Default> Generic<T>  { "));
    check_with_setters(&out, "T");
}

#[test]
fn with_setters_test_where() {
    let input = generic(
        "Where",
        "<T>",
        "<T>",
        "where T: Copy + Clone + Default",
        vec![word("set_with")],
        with_fields("T"),
    );
    let out = text(with_setters(&input));
    assert!(out.starts_with("impl<T> Where<T> where T: Copy + Clone + Default { "));
    check_with_setters(&out, "T");
}

#[test]
fn with_setters_test_chaining() {
    let out = text(with_setters(&with_plain()));
    has(&out, "pub fn with_public_accessible(mut self, val: usize) -> Self { self.public_accessible = val; self }");
    has(
        &out,
        "#[doc = \" This field is used for testing chaining.\"] #[inline(always)] pub fn with_second_public_accessible(mut self, val: bool) -> Self { self.second_public_accessible = val; self }",
    );
}

// Cloning getters.

fn clone_struct(name: &str, t: &str) -> DeriveInput {
    let boxed = || ty_args(&[t], &["usize"]);
    structure(
        name,
        vec![word("get_clone")],
        vec![
            field("private_accessible", boxed(), two_docs()),
            field("public_accessible", boxed(), vec![doc(" A doc comment."), name_value("get_clone", "pub")]),
            field("private_prefixed", boxed(), vec![name_value("get_clone", "with_prefix")]),
            field("public_prefixed", boxed(), vec![name_value("get_clone", "pub with_prefix")]),
        ],
    )
}

fn clone_generic_fields() -> Vec<Field> {
    vec![
        field("private_accessible", ty("T"), two_docs()),
        field("public_accessible", ty("T"), vec![doc(" A doc comment."), name_value("get_clone", "pub")]),
    ]
}

fn check_clone_pair(out: &str, t: &str) {
    has(
        out,
        &format!("#[inline(always)] fn private_accessible(&self) -> {} {{ self.private_accessible.clone() }}", t),
    );
    has(
        out,
        &format!(
            "#[doc = \" A doc comment.\"] #[inline(always)] pub fn public_accessible(&self) -> {} {{ self.public_accessible.clone() }}",
            t
        ),
    );
}

#[test]
fn clone_getters_test_plain() {
    let out = text(clone_getters(&clone_struct("Plain", "Box")));
    check_clone_pair(&out, "Box<usize>");
}

#[test]
fn clone_getters_test_reference_counted() {
    let out = text(clone_getters(&clone_struct("ReferenceCounted", "Arc")));
    assert!(out.starts_with("impl ReferenceCounted  { "));
    check_clone_pair(&out, "Arc<usize>");
}

#[test]
fn clone_getters_test_generic() {
    let input = generic("Generic", "<T: Clone + Default>", "<T>", "", vec![word("get_clone")], clone_generic_fields());
    let out = text(clone_getters(&input));
    assert!(out.starts_with("impl<T: Clone + Default> Generic<T>  { "));
    check_clone_pair(&out, "T");
}

#[test]
fn clone_getters_test_where() {
    let input = generic("Where", "<T>", "<T>", "where T: Clone + Default", vec![word("get_clone")], clone_generic_fields());
    let out = text(clone_getters(&input));
    assert!(out.starts_with("impl<T> Where<T> where T: Clone + Default { "));
    check_clone_pair(&out, "T");
}

#[test]
fn clone_getters_test_prefixed_plain() {
    let out = text(clone_getters(&clone_struct("Plain", "Box")));
    has(&out, "#[inline(always)] fn get_private_prefixed(&self) -> Box<usize> { self.private_prefixed.clone() }");
    has(&out, "#[inline(always)] pub fn get_public_prefixed(&self) -> Box<usize> { self.public_prefixed.clone() }");
}

#[test]
fn clone_getters_test_prefixed_reference_counted() {
    let out = text(clone_getters(&clone_struct("ReferenceCounted", "Arc")));
    has(&out, "#[inline(always)] fn get_private_prefixed(&self) -> Arc<usize> { self.private_prefixed.clone() }");
    has(&out, "#[inline(always)] pub fn get_public_prefixed(&self) -> Arc<usize> { self.public_prefixed.clone() }");
}

// Getters and setters side by side.

fn basic_foo() -> DeriveInput {
    structure(
        "Foo",
        vec![],
        vec![
            field("private_get", ty("usize"), with_docs(two_docs(), vec![word("get")])),
            field("private_set", ty("usize"), with_docs(two_docs(), vec![word("set")])),
            field("public_accessible_get", ty("usize"), vec![doc(" A doc comment."), name_value("get", "pub")]),
            field("public_accessible_set", ty("usize"), vec![doc(" A doc comment."), name_value("set", "pub")]),
            field("private_accessible_get_set", ty("usize"), vec![doc(" A doc comment."), word("get"), word("set")]),
            field(
                "public_accessible_get_set",
                ty("usize"),
                vec![doc(" A doc comment."), name_value("get", "pub"), name_value("set", "pub")],
            ),
        ],
    )
}

#[test]
fn basic_test_private() {
    let input = basic_foo();
    let get = text(getters(&input));
    let set = text(setters(&input));
    has(&get, "#[inline(always)] fn private_get(&self) -> &usize { &self.private_get }");
    lacks(&get, "fn private_set");
    has(&set, "#[inline(always)] fn set_private_set(&mut self, val: usize) -> &mut Self { self.private_set = val; self }");
    lacks(&set, "set_private_get");
    has(&get, "#[inline(always)] fn private_accessible_get_set(&self) -> &usize { &self.private_accessible_get_set }");
    has(
        &set,
        "#[inline(always)] fn set_private_accessible_get_set(&mut self, val: usize) -> &mut Self { self.private_accessible_get_set = val; self }",
    );
}

#[test]
fn basic_test_public() {
    let input = basic_foo();
    let get = text(getters(&input));
    let set = text(setters(&input));
    has(&get, "pub fn public_accessible_get(&self) -> &usize { &self.public_accessible_get }");
    has(&set, "pub fn set_public_accessible_set(&mut self, val: usize) -> &mut Self { self.public_accessible_set = val; self }");
    has(&get, "pub fn public_accessible_get_set(&self) -> &usize { &self.public_accessible_get_set }");
    has(
        &set,
        "pub fn set_public_accessible_get_set(&mut self, val: usize) -> &mut Self { self.public_accessible_get_set = val; self }",
    );
}

// Generic structures with where clauses and scoped visibilities.

fn generic_where_foo() -> DeriveInput {
    let mut fields = Vec::new();
    for (scope, vis) in [
        ("private", None),
        ("public_accessible", Some("pub")),
        ("crate_accessible", Some("pub(crate)")),
        ("super_accessible", Some("pub(super)")),
        ("scope_accessible", Some("pub(in super::other)")),
    ] {
        let attr = |mode: &str| match vis {
            Some(v) => name_value(mode, v),
            None => word(mode),
        };
        fields.push(field(&format!("{}_get", scope), ty("T"), vec![attr("get")]));
        fields.push(field(&format!("{}_set", scope), ty("T"), vec![attr("set")]));
        let both = if scope == "private" { "private_accessible".to_string() } else { scope.to_string() };
        fields.push(field(&format!("{}_get_set", both), ty("T"), vec![attr("get"), attr("set")]));
    }
    generic("Foo", "<T>", "<T>", "where T: Copy + Clone + Default", vec![], fields)
}

fn check_scope(vis: &str, scope: &str) {
    let input = generic_where_foo();
    let get = text(getters(&input));
    let set = text(setters(&input));
    assert!(get.starts_with("impl<T> Foo<T> where T: Copy + Clone + Default { "));
    has(&get, &format!("#[inline(always)] {}fn {}_get(&self) -> &T {{ &self.{}_get }}", vis, scope, scope));
    has(
        &set,
        &format!(
            "#[inline(always)] {}fn set_{}_set(&mut self, val: T) -> &mut Self {{ self.{}_set = val; self }}",
            vis, scope, scope
        ),
    );
    let both = if scope == "private" { "private_accessible".to_string() } else { scope.to_string() };
    has(&get, &format!("#[inline(always)] {}fn {}_get_set(&self) -> &T {{ &self.{}_get_set }}", vis, both, both));
    has(
        &set,
        &format!(
            "#[inline(always)] {}fn set_{}_get_set(&mut self, val: T) -> &mut Self {{ self.{}_get_set = val; self }}",
            vis, both, both
        ),
    );
}

#[test]
fn generic_where_test_private() {
    check_scope("", "private");
}

#[test]
fn test_super_other() {
    check_scope("pub(in super::other) ", "scope_accessible");
}

#[test]
fn test_super() {
    check_scope("pub(super) ", "super_accessible");
}

#[test]
fn test_crate() {
    check_scope("pub(crate) ", "crate_accessible");
}

#[test]
fn generic_where_test_public() {
    check_scope("pub ", "public_accessible");
}

// Unary tuple structures.

fn check_unary(pair: DeriveInput, copy: DeriveInput) {
    assert_eq!(
        text(getters(&pair)),
        "impl UnaryTuple  { #[inline(always)] fn get(&self) -> &i32 { &self.0 }}"
    );
    assert_eq!(
        text(mut_getters(&pair)),
        "impl UnaryTuple  { #[inline(always)] fn get_mut(&mut self) -> &mut i32 { &mut self.0 }}"
    );
    assert_eq!(
        text(setters(&pair)),
        "impl UnaryTuple  { #[inline(always)] fn set(&mut self, val: i32) -> &mut Self { self.0 = val; self }}"
    );
    assert_eq!(
        text(copy_getters(&copy)),
        "impl CopyUnaryTuple  { #[inline(always)] fn get_copy(&self) -> i32 { self.0 }}"
    );
}

#[test]
fn test_unary_tuple() {
    let pair = tuple(
        "UnaryTuple",
        vec![],
        vec![unnamed(ty("i32"), vec![getset(vec![item("set"), item("get"), item("get_mut")])])],
    );
    let copy = tuple("CopyUnaryTuple", vec![], vec![unnamed(ty("i32"), vec![getset(vec![item("get_copy")])])]);
    check_unary(pair, copy);
}

#[test]
fn test_unary_tuple_with_attrs() {
    let pair = tuple(
        "UnaryTuple",
        vec![getset(vec![item("set"), item("get"), item("get_mut")])],
        vec![unnamed(ty("i32"), vec![])],
    );
    let copy = tuple("CopyUnaryTuple", vec![getset(vec![item("get_copy")])], vec![unnamed(ty("i32"), vec![])]);
    check_unary(pair, copy);
}
