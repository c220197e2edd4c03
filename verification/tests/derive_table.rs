use sql_builder::derive::{
    derive_impl, derive_table, to_pascal_case, unwrap_option, Attr, AttrMeta, DeriveError, FieldInput,
    GenericArg, PathArgs, TypeSegment, Shape, StructInput, TablePlan, TypeModel,
};
use sql_builder::{
    BelongsTo, ColumnExpr, Direction, ForeignKey, HasPrimaryKey, NotNull, Nullable, PrimaryKey,
    QueryBuilder, SelectExpr, TableSchema,
};

// ── The structs, as the derive reads them ────────────────────────────────────

fn path_attr(p: &str) -> Attr {
    Attr { path: p.to_string(), meta: AttrMeta::Path }
}

fn str_attr(p: &str, v: &str) -> Attr {
    Attr { path: p.to_string(), meta: AttrMeta::NameValueStr(v.to_string()) }
}

fn list_attr(p: &str, ident: &str) -> Attr {
    Attr { path: p.to_string(), meta: AttrMeta::List(Some(ident.to_string())) }
}

fn plain_type(name: &str) -> TypeModel {
    TypeModel::Path(vec![TypeSegment { ident: name.to_string(), args: PathArgs::Plain }])
}

fn option_of(inner: TypeModel) -> TypeModel {
    TypeModel::Path(vec![TypeSegment {
        ident: "Option".to_string(),
        args: PathArgs::Angle(vec![GenericArg::Type(inner)]),
    }])
}

fn field(ident: &str, attrs: Vec<Attr>, ty: TypeModel) -> FieldInput {
    FieldInput { ident: ident.to_string(), attrs, ty }
}

/// `#[table_name = "posts"] struct Post { #[primary_key] id: i64, title: String, body: Option<String> }`
fn post_input() -> StructInput {
    StructInput {
        ident: "Post".to_string(),
        attrs: vec![str_attr("table_name", "posts")],
        shape: Shape::Named(vec![
            field("id", vec![path_attr("primary_key")], plain_type("i64")),
            field("title", vec![], plain_type("String")),
            field("body", vec![], option_of(plain_type("String"))),
        ]),
    }
}

/// `#[table_name = "comments"] struct Comment { ... }`
fn comment_input() -> StructInput {
    StructInput {
        ident: "Comment".to_string(),
        attrs: vec![str_attr("table_name", "comments")],
        shape: Shape::Named(vec![
            field("id", vec![path_attr("primary_key")], plain_type("i64")),
            field("content", vec![str_attr("column_name", "content_text")], plain_type("String")),
            field("slug", vec![path_attr("unique")], plain_type("String")),
            field("extra", vec![], option_of(plain_type("String"))),
            field("post_id", vec![list_attr("foreign_key", "Post")], plain_type("i64")),
        ]),
    }
}

/// `struct Tag { name: String }`
fn tag_input() -> StructInput {
    StructInput {
        ident: "Tag".to_string(),
        attrs: vec![],
        shape: Shape::Named(vec![field("name", vec![], plain_type("String"))]),
    }
}

fn plan(input: StructInput) -> TablePlan {
    match derive_impl(input) {
        Ok(p) => p,
        Err(e) => panic!("no table: {:?}", e),
    }
}

#[test]
fn table_name_custom() {
    assert_eq!(plan(post_input()).table_name, "posts");
    assert_eq!(plan(comment_input()).table_name, "comments");
}

#[test]
fn table_name_default_lowercase() {
    assert_eq!(plan(tag_input()).table_name, "tag");
}

#[test]
fn column_name_default() {
    let post = post_input();
    let p = plan(post);
    assert_eq!(p.columns[0].column_name, "id");
    assert_eq!(p.columns[1].column_name, "title");
    assert_eq!(p.columns[2].column_name, "body");
}

#[test]
fn column_name_custom() {
    let comment = comment_input();
    let p = plan(comment);
    assert_eq!(p.columns[1].column_name, "content_text");
}

#[test]
fn derive_plan_columns_and_keys() {
    let comment = comment_input();
    let p = plan(comment);
    assert_eq!(p.module_name, "comment");
    assert_eq!(p.primary_key, Some("Id".to_string()));
    assert_eq!(p.columns.len(), 5);
    assert!(p.columns[0].primary_key && !p.columns[0].nullable);
    assert_eq!(p.columns[1].type_ident, "Content");
    assert!(p.columns[2].unique && !p.columns[1].unique);
    assert!(p.columns[3].nullable);
    assert_eq!(p.columns[4].type_ident, "PostId");
    assert_eq!(p.columns[4].foreign_key, Some("Post".to_string()));
    assert_eq!(p.columns[3].foreign_key, None);
    match &p.columns[3].value_type {
        TypeModel::Path(segs) => assert_eq!(segs[0].ident, "String"),
        TypeModel::Other(_) => panic!("expected a path"),
    }
    match &p.columns[4].value_type {
        TypeModel::Path(segs) => assert_eq!(segs[0].ident, "i64"),
        TypeModel::Other(_) => panic!("expected a path"),
    }
    let tag = tag_input();
    let t = plan(tag);
    assert_eq!(t.primary_key, None);
    assert_eq!(t.module_name, "tag");
}

#[test]
fn derive_rejects_enums_and_tuple_structs() {
    let e = StructInput { ident: "E".to_string(), attrs: vec![], shape: Shape::NotStruct };
    assert_eq!(derive_impl(e).err(), Some(DeriveError::StructRequired));
    let t = StructInput { ident: "T".to_string(), attrs: vec![], shape: Shape::Unnamed };
    assert_eq!(derive_impl(t).err(), Some(DeriveError::NamedFieldsRequired));
}

#[test]
fn derive_rejects_two_primary_keys() {
    let s = StructInput {
        ident: "S".to_string(),
        attrs: vec![],
        shape: Shape::Named(vec![
            field("a", vec![path_attr("primary_key")], plain_type("i64")),
            field("b", vec![path_attr("primary_key")], plain_type("i64")),
        ]),
    };
    assert_eq!(derive_impl(s).err(), Some(DeriveError::DuplicatePrimaryKey(1)));
}

#[test]
fn derive_rejects_nullable_primary_key() {
    let s = StructInput {
        ident: "S".to_string(),
        attrs: vec![],
        shape: Shape::Named(vec![field(
            "a",
            vec![path_attr("primary_key")],
            option_of(plain_type("i64")),
        )]),
    };
    assert_eq!(derive_impl(s).err(), Some(DeriveError::NullablePrimaryKey(0)));
}

#[test]
fn derive_rejects_malformed_attributes() {
    let fk = StructInput {
        ident: "S".to_string(),
        attrs: vec![],
        shape: Shape::Named(vec![
            field("a", vec![], plain_type("i64")),
            field("b", vec![path_attr("foreign_key")], plain_type("i64")),
        ]),
    };
    assert_eq!(derive_impl(fk).err(), Some(DeriveError::ForeignKeyNotIdent(1)));
    let col = StructInput {
        ident: "S".to_string(),
        attrs: vec![],
        shape: Shape::Named(vec![field(
            "a",
            vec![Attr { path: "column_name".to_string(), meta: AttrMeta::NameValueOther }],
            plain_type("i64"),
        )]),
    };
    assert_eq!(derive_impl(col).err(), Some(DeriveError::ColumnNameNotString(0)));
}

#[test]
fn derive_passes_over_malformed_table_name() {
    let s = StructInput {
        ident: "Account".to_string(),
        attrs: vec![
            Attr { path: "table_name".to_string(), meta: AttrMeta::NameValueOther },
            str_attr("table_name", "accounts"),
        ],
        shape: Shape::Named(vec![field("id", vec![], plain_type("i64"))]),
    };
    assert_eq!(plan(s).table_name, "accounts");
}

#[test]
fn pascal_case_of_snake_case_names() {
    assert_eq!(to_pascal_case("post_id"), "PostId");
    assert_eq!(to_pascal_case("avatar_url"), "AvatarUrl");
    assert_eq!(to_pascal_case("__a__b_"), "AB");
    assert_eq!(to_pascal_case("id"), "Id");
    assert_eq!(to_pascal_case(""), "");
}

#[test]
fn option_types_unwrap_to_their_argument() {
    let wrapped = option_of(plain_type("i64"));
    let (inner, nullable) = unwrap_option(&wrapped);
    assert!(nullable);
    match inner {
        TypeModel::Path(segs) => assert_eq!(segs[0].ident, "i64"),
        TypeModel::Other(_) => panic!("expected a path"),
    }
    let plain = plain_type("Vec");
    let (same, nullable) = unwrap_option(&plain);
    assert!(!nullable);
    match same {
        TypeModel::Path(segs) => assert_eq!(segs[0].ident, "Vec"),
        TypeModel::Other(_) => panic!("expected a path"),
    }
}

// ── The impls that the derive generates for Post and Comment ─────────────────

pub struct Post;
impl TableSchema for Post {
    const TABLE_NAME: &'static str = "posts";
}

pub struct PostIdColumn;
impl BelongsTo<Post> for PostIdColumn {
    type Value = i64;
    type Null = NotNull;
    const COLUMN_NAME: &'static str = "id";
}
impl SelectExpr<Post> for PostIdColumn {
    fn select_entry() -> ColumnExpr {
        Self::column_expr()
    }
    fn column_expr() -> ColumnExpr {
        ColumnExpr::Column { table: "posts", name: "id" }
    }
}
impl PrimaryKey<Post> for PostIdColumn {}
impl HasPrimaryKey for Post {
    type PkColumn = PostIdColumn;
}

pub struct PostTitle;
impl BelongsTo<Post> for PostTitle {
    type Value = String;
    type Null = NotNull;
    const COLUMN_NAME: &'static str = "title";
}
impl SelectExpr<Post> for PostTitle {
    fn select_entry() -> ColumnExpr {
        Self::column_expr()
    }
    fn column_expr() -> ColumnExpr {
        ColumnExpr::Column { table: "posts", name: "title" }
    }
}

pub struct PostBody;
impl BelongsTo<Post> for PostBody {
    type Value = String;
    type Null = Nullable;
    const COLUMN_NAME: &'static str = "body";
}

pub struct Comment;
impl TableSchema for Comment {
    const TABLE_NAME: &'static str = "comments";
}

pub struct CommentContent;
impl BelongsTo<Comment> for CommentContent {
    type Value = String;
    type Null = NotNull;
    const COLUMN_NAME: &'static str = "content_text";
}
impl SelectExpr<Comment> for CommentContent {
    fn select_entry() -> ColumnExpr {
        Self::column_expr()
    }
    fn column_expr() -> ColumnExpr {
        ColumnExpr::Column { table: "comments", name: "content_text" }
    }
}

pub struct CommentPostId;
impl BelongsTo<Comment> for CommentPostId {
    type Value = i64;
    type Null = NotNull;
    const COLUMN_NAME: &'static str = "post_id";
}
impl ForeignKey<Comment> for CommentPostId {
    type References = Post;
    type RefColumn = <Post as HasPrimaryKey>::PkColumn;
}

#[test]
fn select_all() {
    let sql = QueryBuilder::new().from::<Post>().select_all().build();
    assert_eq!(sql, "SELECT * FROM posts");
}

#[test]
fn derive_table_select_single_column() {
    let sql = QueryBuilder::new().from::<Post>().select::<(PostTitle,)>().build();
    assert_eq!(sql, "SELECT posts.title FROM posts");
}

#[test]
fn derive_table_select_multiple_columns() {
    let sql = QueryBuilder::new().from::<Post>().select::<(PostIdColumn, PostTitle)>().build();
    assert_eq!(sql, "SELECT posts.id, posts.title FROM posts");
}

#[test]
fn select_custom_column_name() {
    let sql = QueryBuilder::new().from::<Comment>().select::<(CommentContent,)>().build();
    assert_eq!(sql, "SELECT comments.content_text FROM comments");
}

#[test]
fn derive_table_inner_join_via_fk() {
    let sql = QueryBuilder::new().from::<Comment>().select_all().join::<Post, CommentPostId>().build();
    assert_eq!(sql, "SELECT * FROM comments INNER JOIN posts ON comments.post_id = posts.id");
}

#[test]
fn left_join_via_fk() {
    let sql =
        QueryBuilder::new().from::<Comment>().select_all().left_join::<Post, CommentPostId>().build();
    assert_eq!(sql, "SELECT * FROM comments LEFT JOIN posts ON comments.post_id = posts.id");
}

#[test]
fn order_limit_offset() {
    let sql = QueryBuilder::new()
        .from::<Post>()
        .select_all()
        .order_by::<PostTitle>(Direction::Asc)
        .limit(10)
        .offset(20)
        .build();
    assert_eq!(sql, "SELECT * FROM posts ORDER BY title ASC LIMIT 10 OFFSET 20");
}

#[test]
fn case_mappings_follow_unicode() {
    assert_eq!(to_pascal_case("élan_ß"), "ÉlanSS");
    let s = StructInput {
        ident: "ÜberTag".to_string(),
        attrs: vec![],
        shape: Shape::Named(vec![field("größe", vec![], plain_type("i64"))]),
    };
    let p = plan(s);
    assert_eq!(p.table_name, "übertag");
    assert_eq!(p.module_name, "übertag");
    assert_eq!(p.columns[0].type_ident, "Größe");
}

#[test]
fn pascal_case_twice_is_pascal_case_once() {
    for name in ["post_id", "__a__b_", "Already", "x", "", "avatar_url_2"] {
        let once = to_pascal_case(name);
        assert_eq!(to_pascal_case(&once), once);
    }
    assert_eq!(to_pascal_case("avatar_url_2"), "AvatarUrl2");
}

// ── The same structs, read from their source text ────────────────────────────

const POST_SRC: &str = r#"
#[table_name = "posts"]
pub struct Post {
    #[primary_key]
    pub id: i64,
    pub title: String,
    pub body: Option<String>,
}
"#;

const COMMENT_SRC: &str = r#"
#[table_name = "comments"]
pub struct Comment {
    #[primary_key]
    pub id: i64,
    #[column_name = "content_text"]
    pub content: String,
    #[unique]
    pub slug: String,
    pub extra: Option<String>,
    #[foreign_key(Post)]
    pub post_id: i64,
}
"#;

fn parsed(src: &str) -> TablePlan {
    match derive_table(src) {
        Ok(p) => p,
        Err(e) => panic!("no table: {:?}", e),
    }
}

#[test]
fn parsed_struct_names_and_columns() {
    let post = parsed(POST_SRC);
    assert_eq!(post.table_name, "posts");
    assert_eq!(post.module_name, "post");
    assert_eq!(post.primary_key, Some("Id".to_string()));
    let names: Vec<&str> = post.columns.iter().map(|c| c.column_name.as_str()).collect();
    assert_eq!(names, vec!["id", "title", "body"]);
    assert!(post.columns[2].nullable && !post.columns[1].nullable);
    match &post.columns[2].value_type {
        TypeModel::Path(segs) => assert_eq!(segs[0].ident, "String"),
        TypeModel::Other(_) => panic!("expected a path"),
    }
    let tag = parsed("pub struct Tag { pub name: String }");
    assert_eq!(tag.table_name, "tag");
    assert_eq!(tag.primary_key, None);
}

#[test]
fn parsed_struct_attributes() {
    let c = parsed(COMMENT_SRC);
    assert_eq!(c.table_name, "comments");
    assert_eq!(c.columns[1].column_name, "content_text");
    assert_eq!(c.columns[1].type_ident, "Content");
    assert!(c.columns[2].unique);
    assert!(c.columns[3].nullable);
    assert_eq!(c.columns[4].foreign_key, Some("Post".to_string()));
    assert_eq!(c.columns[4].type_ident, "PostId");
}

#[test]
fn parsed_struct_errors() {
    assert_eq!(derive_table("struct").err(), Some(DeriveError::Unparsable));
    assert_eq!(derive_table("enum E { A }").err(), Some(DeriveError::StructRequired));
    assert_eq!(derive_table("struct T(i64);").err(), Some(DeriveError::NamedFieldsRequired));
    assert_eq!(
        derive_table("struct S { #[primary_key] a: i64, #[primary_key] b: i64 }").err(),
        Some(DeriveError::DuplicatePrimaryKey(1))
    );
    assert_eq!(
        derive_table("struct S { #[primary_key] a: Option<i64> }").err(),
        Some(DeriveError::NullablePrimaryKey(0))
    );
    assert_eq!(
        derive_table("struct S { a: i64, #[foreign_key] b: i64 }").err(),
        Some(DeriveError::ForeignKeyNotIdent(1))
    );
    assert_eq!(
        derive_table("struct S { #[column_name = 3] a: i64 }").err(),
        Some(DeriveError::ColumnNameNotString(0))
    );
    assert_eq!(
        derive_table("struct S { #[foreign_key(A, B)] a: i64 }").err(),
        Some(DeriveError::ForeignKeyNotIdent(0))
    );
}
