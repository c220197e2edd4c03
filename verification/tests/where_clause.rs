use sql_builder::{
    BelongsTo, ColumnExpr, ForeignKey, HasPrimaryKey, NotNull, Nullable, PrimaryKey, SelectExpr,
    TableSchema,
};

// ── Schema: users, posts, comments ───────────────────────────────────────────

pub struct Users;
impl TableSchema for Users {
    const TABLE_NAME: &'static str = "users";
}

pub struct UserId;
impl BelongsTo<Users> for UserId {
    type Value = i64;
    type Null = NotNull;
    const COLUMN_NAME: &'static str = "UserId";
}
impl SelectExpr<Users> for UserId {
    fn select_entry() -> ColumnExpr {
        Self::column_expr()
    }
    fn column_expr() -> ColumnExpr {
        ColumnExpr::Column { table: "users", name: "UserId" }
    }
}
impl PrimaryKey<Users> for UserId {}
impl HasPrimaryKey for Users {
    type PkColumn = UserId;
}

pub struct UserName;
impl BelongsTo<Users> for UserName {
    type Value = String;
    type Null = NotNull;
    const COLUMN_NAME: &'static str = "UserName";
}
impl SelectExpr<Users> for UserName {
    fn select_entry() -> ColumnExpr {
        Self::column_expr()
    }
    fn column_expr() -> ColumnExpr {
        ColumnExpr::Column { table: "users", name: "UserName" }
    }
}

pub struct Email;
impl BelongsTo<Users> for Email {
    type Value = String;
    type Null = Nullable;
    const COLUMN_NAME: &'static str = "Email";
}
impl SelectExpr<Users> for Email {
    fn select_entry() -> ColumnExpr {
        Self::column_expr()
    }
    fn column_expr() -> ColumnExpr {
        ColumnExpr::Column { table: "users", name: "Email" }
    }
}

pub struct Posts;
impl TableSchema for Posts {
    const TABLE_NAME: &'static str = "posts";
}

pub struct PostId;
impl BelongsTo<Posts> for PostId {
    type Value = i64;
    type Null = NotNull;
    const COLUMN_NAME: &'static str = "PostId";
}
impl SelectExpr<Posts> for PostId {
    fn select_entry() -> ColumnExpr {
        Self::column_expr()
    }
    fn column_expr() -> ColumnExpr {
        ColumnExpr::Column { table: "posts", name: "PostId" }
    }
}
impl PrimaryKey<Posts> for PostId {}
impl HasPrimaryKey for Posts {
    type PkColumn = PostId;
}

pub struct Title;
impl BelongsTo<Posts> for Title {
    type Value = String;
    type Null = NotNull;
    const COLUMN_NAME: &'static str = "Title";
}
impl SelectExpr<Posts> for Title {
    fn select_entry() -> ColumnExpr {
        Self::column_expr()
    }
    fn column_expr() -> ColumnExpr {
        ColumnExpr::Column { table: "posts", name: "Title" }
    }
}

pub struct PostAuthorId;
impl BelongsTo<Posts> for PostAuthorId {
    type Value = i64;
    type Null = NotNull;
    const COLUMN_NAME: &'static str = "AuthorId";
}
impl SelectExpr<Posts> for PostAuthorId {
    fn select_entry() -> ColumnExpr {
        Self::column_expr()
    }
    fn column_expr() -> ColumnExpr {
        ColumnExpr::Column { table: "posts", name: "AuthorId" }
    }
}
impl ForeignKey<Posts> for PostAuthorId {
    type References = Users;
    type RefColumn = <Users as HasPrimaryKey>::PkColumn;
}

pub struct Draft;
impl BelongsTo<Posts> for Draft {
    type Value = bool;
    type Null = Nullable;
    const COLUMN_NAME: &'static str = "Draft";
}
impl SelectExpr<Posts> for Draft {
    fn select_entry() -> ColumnExpr {
        Self::column_expr()
    }
    fn column_expr() -> ColumnExpr {
        ColumnExpr::Column { table: "posts", name: "Draft" }
    }
}

pub struct Comments;
impl TableSchema for Comments {
    const TABLE_NAME: &'static str = "comments";
}

pub struct CommentId;
impl BelongsTo<Comments> for CommentId {
    type Value = i64;
    type Null = NotNull;
    const COLUMN_NAME: &'static str = "CommentId";
}
impl SelectExpr<Comments> for CommentId {
    fn select_entry() -> ColumnExpr {
        Self::column_expr()
    }
    fn column_expr() -> ColumnExpr {
        ColumnExpr::Column { table: "comments", name: "CommentId" }
    }
}
impl PrimaryKey<Comments> for CommentId {}
impl HasPrimaryKey for Comments {
    type PkColumn = CommentId;
}

pub struct Body;
impl BelongsTo<Comments> for Body {
    type Value = String;
    type Null = NotNull;
    const COLUMN_NAME: &'static str = "Body";
}
impl SelectExpr<Comments> for Body {
    fn select_entry() -> ColumnExpr {
        Self::column_expr()
    }
    fn column_expr() -> ColumnExpr {
        ColumnExpr::Column { table: "comments", name: "Body" }
    }
}

pub struct CommentPostId;
impl BelongsTo<Comments> for CommentPostId {
    type Value = i64;
    type Null = NotNull;
    const COLUMN_NAME: &'static str = "PostId";
}
impl SelectExpr<Comments> for CommentPostId {
    fn select_entry() -> ColumnExpr {
        Self::column_expr()
    }
    fn column_expr() -> ColumnExpr {
        ColumnExpr::Column { table: "comments", name: "PostId" }
    }
}
impl ForeignKey<Comments> for CommentPostId {
    type References = Posts;
    type RefColumn = <Posts as HasPrimaryKey>::PkColumn;
}

pub struct CommentAuthorId;
impl BelongsTo<Comments> for CommentAuthorId {
    type Value = i64;
    type Null = NotNull;
    const COLUMN_NAME: &'static str = "AuthorId";
}
impl SelectExpr<Comments> for CommentAuthorId {
    fn select_entry() -> ColumnExpr {
        Self::column_expr()
    }
    fn column_expr() -> ColumnExpr {
        ColumnExpr::Column { table: "comments", name: "AuthorId" }
    }
}
impl ForeignKey<Comments> for CommentAuthorId {
    type References = Users;
    type RefColumn = <Users as HasPrimaryKey>::PkColumn;
}

pub struct ParentId;
impl BelongsTo<Comments> for ParentId {
    type Value = i64;
    type Null = Nullable;
    const COLUMN_NAME: &'static str = "ParentId";
}
impl SelectExpr<Comments> for ParentId {
    fn select_entry() -> ColumnExpr {
        Self::column_expr()
    }
    fn column_expr() -> ColumnExpr {
        ColumnExpr::Column { table: "comments", name: "ParentId" }
    }
}
impl ForeignKey<Comments> for ParentId {
    type References = Comments;
    type RefColumn = <Comments as HasPrimaryKey>::PkColumn;
}

use sql_builder::{Direction, QueryBuilder, WhereClause};

// ── WHERE ─────────────────────────────────────────────────────────────────────

#[test]
fn where_clause_eq() {
    let sql = QueryBuilder::new()
        .from::<Users>()
        .select_all()
        .where_clause(WhereClause::<Users, _>::new().eq::<UserId, _>(1_i64))
        .build();
    assert_eq!(sql, "SELECT * FROM users WHERE (UserId = 1)");
}

#[test]
fn where_clause_gt_and_lt() {
    let sql = QueryBuilder::new()
        .from::<Posts>()
        .select_all()
        .where_clause(
            WhereClause::<Posts, _>::new().gt::<PostId, _>(10_i64).and().lt::<PostId, _>(50_i64),
        )
        .build();
    assert_eq!(sql, "SELECT * FROM posts WHERE (PostId > 10 AND PostId < 50)");
}

#[test]
fn where_clause_not_eq_and_lt_eq() {
    let sql = QueryBuilder::new()
        .from::<Users>()
        .select_all()
        .where_clause(
            WhereClause::<Users, _>::new()
                .not_eq::<UserId, _>(0_i64)
                .and()
                .lt_eq::<UserId, _>(99_i64),
        )
        .build();
    assert_eq!(sql, "SELECT * FROM users WHERE (UserId <> 0 AND UserId <= 99)");
}

#[test]
fn where_clause_gt_eq() {
    let sql = QueryBuilder::new()
        .from::<Posts>()
        .select_all()
        .where_clause(WhereClause::<Posts, _>::new().gt_eq::<PostId, _>(100_i64))
        .build();
    assert_eq!(sql, "SELECT * FROM posts WHERE (PostId >= 100)");
}

#[test]
fn where_clause_like() {
    let sql = QueryBuilder::new()
        .from::<Users>()
        .select_all()
        .where_clause(WhereClause::<Users, _>::new().like::<UserName, _>("%alice%"))
        .build();
    assert_eq!(sql, "SELECT * FROM users WHERE (UserName LIKE '%alice%')");
}

#[test]
fn where_clause_is_null() {
    let sql = QueryBuilder::new()
        .from::<Users>()
        .select_all()
        .where_clause(WhereClause::<Users, _>::new().is_null::<Email>())
        .build();
    assert_eq!(sql, "SELECT * FROM users WHERE (Email IS NULL)");
}

#[test]
fn where_clause_is_not_null() {
    let sql = QueryBuilder::new()
        .from::<Posts>()
        .select_all()
        .where_clause(WhereClause::<Posts, _>::new().is_not_null::<Draft>())
        .build();
    assert_eq!(sql, "SELECT * FROM posts WHERE (Draft IS NOT NULL)");
}

#[test]
fn where_clause_is_not_null_on_nullable_fk() {
    let sql = QueryBuilder::new()
        .from::<Comments>()
        .select_all()
        .where_clause(WhereClause::<Comments, _>::new().is_not_null::<ParentId>())
        .build();
    assert_eq!(sql, "SELECT * FROM comments WHERE (ParentId IS NOT NULL)");
}

#[test]
fn where_clause_and_chain() {
    let sql = QueryBuilder::new()
        .from::<Users>()
        .select_all()
        .where_clause(
            WhereClause::<Users, _>::new()
                .eq::<UserId, _>(1_i64)
                .and()
                .like::<UserName, _>("%alice%"),
        )
        .build();
    assert_eq!(sql, "SELECT * FROM users WHERE (UserId = 1 AND UserName LIKE '%alice%')");
}

#[test]
fn where_clause_or_chain() {
    let sql = QueryBuilder::new()
        .from::<Users>()
        .select_all()
        .where_clause(
            WhereClause::<Users, _>::new()
                .lt::<UserId, _>(10_i64)
                .or()
                .gt_eq::<UserId, _>(100_i64),
        )
        .build();
    assert_eq!(sql, "SELECT * FROM users WHERE (UserId < 10 OR UserId >= 100)");
}

#[test]
fn where_clause_between() {
    let sql = QueryBuilder::new()
        .from::<Users>()
        .select_all()
        .where_clause(WhereClause::<Users, _>::new().between::<UserId, _>(1_i64, 50_i64))
        .build();
    assert_eq!(sql, "SELECT * FROM users WHERE (UserId BETWEEN 1 AND 50)");
}

#[test]
fn where_clause_in_values() {
    let sql = QueryBuilder::new()
        .from::<Users>()
        .select_all()
        .where_clause(WhereClause::<Users, _>::new().in_values::<UserId, _>(vec![1_i64, 2, 3]))
        .build();
    assert_eq!(sql, "SELECT * FROM users WHERE (UserId IN (1, 2, 3))");
}

#[test]
fn where_clause_multiple_calls_and_joined() {
    let sql = QueryBuilder::new()
        .from::<Posts>()
        .select_all()
        .where_clause(WhereClause::<Posts, _>::new().gt::<PostId, _>(5_i64))
        .where_clause(WhereClause::<Posts, _>::new().is_null::<Draft>())
        .build();
    assert_eq!(sql, "SELECT * FROM posts WHERE (PostId > 5) AND (Draft IS NULL)");
}

#[test]
fn where_clause_long_chain() {
    let sql = QueryBuilder::new()
        .from::<Users>()
        .select_all()
        .where_clause(
            WhereClause::<Users, _>::new()
                .gt_eq::<UserId, _>(1_i64)
                .and()
                .like::<UserName, _>("B%")
                .and()
                .is_not_null::<Email>(),
        )
        .build();
    assert_eq!(
        sql,
        "SELECT * FROM users WHERE (UserId >= 1 AND UserName LIKE 'B%' AND Email IS NOT NULL)"
    );
}

// ── JOIN ──────────────────────────────────────────────────────────────────────

#[test]
fn join_inner_join_via_fk() {
    let sql = QueryBuilder::new()
        .from::<Posts>()
        .select::<(Title, PostAuthorId)>()
        .join::<Users, PostAuthorId>()
        .build();
    assert_eq!(
        sql,
        "SELECT posts.Title, posts.AuthorId FROM posts \
         INNER JOIN users ON posts.AuthorId = users.UserId"
    );
}

#[test]
fn join_left_join_nullable_fk() {
    let sql = QueryBuilder::new()
        .from::<Comments>()
        .select_all()
        .left_join::<Comments, ParentId>()
        .build();
    assert_eq!(
        sql,
        "SELECT * FROM comments \
         LEFT JOIN comments ON comments.ParentId = comments.CommentId"
    );
}

#[test]
fn join_multiple_joins() {
    let sql = QueryBuilder::new()
        .from::<Comments>()
        .select_all()
        .join::<Posts, CommentPostId>()
        .join::<Users, CommentAuthorId>()
        .build();
    assert_eq!(
        sql,
        "SELECT * FROM comments \
         INNER JOIN posts ON comments.PostId = posts.PostId \
         INNER JOIN users ON comments.AuthorId = users.UserId"
    );
}

#[test]
fn join_with_where_clause() {
    let sql = QueryBuilder::new()
        .from::<Posts>()
        .select::<(Title, PostAuthorId)>()
        .join::<Users, PostAuthorId>()
        .where_clause(WhereClause::<Posts, _>::new().gt::<PostId, _>(100_i64))
        .build();
    assert_eq!(
        sql,
        "SELECT posts.Title, posts.AuthorId FROM posts \
         INNER JOIN users ON posts.AuthorId = users.UserId \
         WHERE (PostId > 100)"
    );
}

#[test]
fn join_with_order_and_limit() {
    let sql = QueryBuilder::new()
        .from::<Posts>()
        .select_all()
        .join::<Users, PostAuthorId>()
        .order_by::<PostId>(Direction::Desc)
        .limit(5)
        .build();
    assert_eq!(
        sql,
        "SELECT * FROM posts \
         INNER JOIN users ON posts.AuthorId = users.UserId \
         ORDER BY PostId DESC LIMIT 5"
    );
}

#[test]
fn self_join_with_is_null_where() {
    let sql = QueryBuilder::new()
        .from::<Comments>()
        .select::<(CommentId, Body)>()
        .left_join::<Comments, ParentId>()
        .where_clause(WhereClause::<Comments, _>::new().is_null::<ParentId>())
        .build();
    assert_eq!(
        sql,
        "SELECT comments.CommentId, comments.Body FROM comments \
         LEFT JOIN comments ON comments.ParentId = comments.CommentId \
         WHERE (ParentId IS NULL)"
    );
}

// ── The query builder end to end ─────────────────────────────────────────────

#[test]
fn query_builder_select_all_produces_star() {
    let sql = QueryBuilder::new().from::<Users>().select_all().build();
    assert_eq!(sql, "SELECT * FROM users");
}

#[test]
fn query_builder_select_single_column() {
    let sql = QueryBuilder::new().from::<Users>().select::<(UserId,)>().build();
    assert_eq!(sql, "SELECT users.UserId FROM users");
}

#[test]
fn query_builder_select_multiple_columns() {
    let sql = QueryBuilder::new().from::<Users>().select::<(UserId, UserName)>().build();
    assert_eq!(sql, "SELECT users.UserId, users.UserName FROM users");
}

#[test]
fn query_builder_inner_join_via_fk() {
    let sql = QueryBuilder::new()
        .from::<Posts>()
        .select::<(Title, PostAuthorId)>()
        .join::<Users, PostAuthorId>()
        .build();
    assert_eq!(
        sql,
        "SELECT posts.Title, posts.AuthorId FROM posts \
         INNER JOIN users ON posts.AuthorId = users.UserId"
    );
}

#[test]
fn query_builder_left_join_nullable_fk() {
    let sql = QueryBuilder::new()
        .from::<Comments>()
        .select_all()
        .left_join::<Comments, ParentId>()
        .build();
    assert_eq!(
        sql,
        "SELECT * FROM comments \
         LEFT JOIN comments ON comments.ParentId = comments.CommentId"
    );
}

#[test]
fn query_builder_multiple_joins() {
    let sql = QueryBuilder::new()
        .from::<Comments>()
        .select_all()
        .join::<Posts, CommentPostId>()
        .join::<Users, CommentAuthorId>()
        .build();
    assert_eq!(
        sql,
        "SELECT * FROM comments \
         INNER JOIN posts ON comments.PostId = posts.PostId \
         INNER JOIN users ON comments.AuthorId = users.UserId"
    );
}

#[test]
fn query_builder_order_by_asc() {
    let sql = QueryBuilder::new()
        .from::<Posts>()
        .select_all()
        .order_by::<PostId>(Direction::Asc)
        .build();
    assert_eq!(sql, "SELECT * FROM posts ORDER BY PostId ASC");
}

#[test]
fn query_builder_order_by_desc_with_limit_and_offset() {
    let sql = QueryBuilder::new()
        .from::<Posts>()
        .select_all()
        .order_by::<PostId>(Direction::Desc)
        .limit(10)
        .offset(20)
        .build();
    assert_eq!(sql, "SELECT * FROM posts ORDER BY PostId DESC LIMIT 10 OFFSET 20");
}
