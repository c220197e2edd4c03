use sql_builder::{
    BelongsTo, ColumnExpr, ForeignKey, HasPrimaryKey, NotNull, Nullable, PrimaryKey, SelectExpr,
    TableSchema,
};

// ── Schema: users, posts, comments ───────────────────────────────────────────

pub struct Users;
impl TableSchema for Users {
    const TABLE_NAME: &'static str = "users";
}

pub struct UserId;
impl BelongsTo<Users> for UserId {
    type Value = i64;
    type Null = NotNull;
    const COLUMN_NAME: &'static str = "UserId";
}
impl SelectExpr<Users> for UserId {
    fn select_entry() -> ColumnExpr {
        Self::column_expr()
    }
    fn column_expr() -> ColumnExpr {
        ColumnExpr::Column { table: "users", name: "UserId" }
    }
}
impl PrimaryKey<Users> for UserId {}
impl HasPrimaryKey for Users {
    type PkColumn = UserId;
}

pub struct UserName;
impl BelongsTo<Users> for UserName {
    type Value = String;
    type Null = NotNull;
    const COLUMN_NAME: &'static str = "UserName";
}
impl SelectExpr<Users> for UserName {
    fn select_entry() -> ColumnExpr {
        Self::column_expr()
    }
    fn column_expr() -> ColumnExpr {
        ColumnExpr::Column { table: "users", name: "UserName" }
    }
}

pub struct Email;
impl BelongsTo<Users> for Email {
    type Value = String;
    type Null = Nullable;
    const COLUMN_NAME: &'static str = "Email";
}
impl SelectExpr<Users> for Email {
    fn select_entry() -> ColumnExpr {
        Self::column_expr()
    }
    fn column_expr() -> ColumnExpr {
        ColumnExpr::Column { table: "users", name: "Email" }
    }
}

pub struct Posts;
impl TableSchema for Posts {
    const TABLE_NAME: &'static str = "posts";
}

pub struct PostId;
impl BelongsTo<Posts> for PostId {
    type Value = i64;
    type Null = NotNull;
    const COLUMN_NAME: &'static str = "PostId";
}
impl SelectExpr<Posts> for PostId {
    fn select_entry() -> ColumnExpr {
        Self::column_expr()
    }
    fn column_expr() -> ColumnExpr {
        ColumnExpr::Column { table: "posts", name: "PostId" }
    }
}
impl PrimaryKey<Posts> for PostId {}
impl HasPrimaryKey for Posts {
    type PkColumn = PostId;
}

pub struct Title;
impl BelongsTo<Posts> for Title {
    type Value = String;
    type Null = NotNull;
    const COLUMN_NAME: &'static str = "Title";
}
impl SelectExpr<Posts> for Title {
    fn select_entry() -> ColumnExpr {
        Self::column_expr()
    }
    fn column_expr() -> ColumnExpr {
        ColumnExpr::Column { table: "posts", name: "Title" }
    }
}

pub struct PostAuthorId;
impl BelongsTo<Posts> for PostAuthorId {
    type Value = i64;
    type Null = NotNull;
    const COLUMN_NAME: &'static str = "AuthorId";
}
impl SelectExpr<Posts> for PostAuthorId {
    fn select_entry() -> ColumnExpr {
        Self::column_expr()
    }
    fn column_expr() -> ColumnExpr {
        ColumnExpr::Column { table: "posts", name: "AuthorId" }
    }
}
impl ForeignKey<Posts> for PostAuthorId {
    type References = Users;
    type RefColumn = <Users as HasPrimaryKey>::PkColumn;
}

pub struct Draft;
impl BelongsTo<Posts> for Draft {
    type Value = bool;
    type Null = Nullable;
    const COLUMN_NAME: &'static str = "Draft";
}
impl SelectExpr<Posts> for Draft {
    fn select_entry() -> ColumnExpr {
        Self::column_expr()
    }
    fn column_expr() -> ColumnExpr {
        ColumnExpr::Column { table: "posts", name: "Draft" }
    }
}

pub struct Comments;
impl TableSchema for Comments {
    const TABLE_NAME: &'static str = "comments";
}

pub struct CommentId;
impl BelongsTo<Comments> for CommentId {
    type Value = i64;
    type Null = NotNull;
    const COLUMN_NAME: &'static str = "CommentId";
}
impl SelectExpr<Comments> for CommentId {
    fn select_entry() -> ColumnExpr {
        Self::column_expr()
    }
    fn column_expr() -> ColumnExpr {
        ColumnExpr::Column { table: "comments", name: "CommentId" }
    }
}
impl PrimaryKey<Comments> for CommentId {}
impl HasPrimaryKey for Comments {
    type PkColumn = CommentId;
}

pub struct Body;
impl BelongsTo<Comments> for Body {
    type Value = String;
    type Null = NotNull;
    const COLUMN_NAME: &'static str = "Body";
}
impl SelectExpr<Comments> for Body {
    fn select_entry() -> ColumnExpr {
        Self::column_expr()
    }
    fn column_expr() -> ColumnExpr {
        ColumnExpr::Column { table: "comments", name: "Body" }
    }
}

pub struct CommentPostId;
impl BelongsTo<Comments> for CommentPostId {
    type Value = i64;
    type Null = NotNull;
    const COLUMN_NAME: &'static str = "PostId";
}
impl SelectExpr<Comments> for CommentPostId {
    fn select_entry() -> ColumnExpr {
        Self::column_expr()
    }
    fn column_expr() -> ColumnExpr {
        ColumnExpr::Column { table: "comments", name: "PostId" }
    }
}
impl ForeignKey<Comments> for CommentPostId {
    type References = Posts;
    type RefColumn = <Posts as HasPrimaryKey>::PkColumn;
}

pub struct CommentAuthorId;
impl BelongsTo<Comments> for CommentAuthorId {
    type Value = i64;
    type Null = NotNull;
    const COLUMN_NAME: &'static str = "AuthorId";
}
impl SelectExpr<Comments> for CommentAuthorId {
    fn select_entry() -> ColumnExpr {
        Self::column_expr()
    }
    fn column_expr() -> ColumnExpr {
        ColumnExpr::Column { table: "comments", name: "AuthorId" }
    }
}
impl ForeignKey<Comments> for CommentAuthorId {
    type References = Users;
    type RefColumn = <Users as HasPrimaryKey>::PkColumn;
}

pub struct ParentId;
impl BelongsTo<Comments> for ParentId {
    type Value = i64;
    type Null = Nullable;
    const COLUMN_NAME: &'static str = "ParentId";
}
impl SelectExpr<Comments> for ParentId {
    fn select_entry() -> ColumnExpr {
        Self::column_expr()
    }
    fn column_expr() -> ColumnExpr {
        ColumnExpr::Column { table: "comments", name: "ParentId" }
    }
}
impl ForeignKey<Comments> for ParentId {
    type References = Comments;
    type RefColumn = <Comments as HasPrimaryKey>::PkColumn;
}

use sql_builder::{DeleteBuilder, InsertBuilder, QueryBuilder, StringRunner, UpdateBuilder, WhereClause};

// ── FROM subquery ─────────────────────────────────────────────────────────────

struct ActiveAuthors;
impl TableSchema for ActiveAuthors {
    const TABLE_NAME: &'static str = "active_authors";
}

struct ActiveUserId;
impl BelongsTo<ActiveAuthors> for ActiveUserId {
    type Value = i64;
    type Null = NotNull;
    const COLUMN_NAME: &'static str = "UserId";
}
impl SelectExpr<ActiveAuthors> for ActiveUserId {
    fn select_entry() -> ColumnExpr {
        Self::column_expr()
    }
    fn column_expr() -> ColumnExpr {
        ColumnExpr::Column { table: "active_authors", name: "UserId" }
    }
}
impl PrimaryKey<ActiveAuthors> for ActiveUserId {}

struct ActiveUserName;
impl BelongsTo<ActiveAuthors> for ActiveUserName {
    type Value = String;
    type Null = NotNull;
    const COLUMN_NAME: &'static str = "UserName";
}
impl SelectExpr<ActiveAuthors> for ActiveUserName {
    fn select_entry() -> ColumnExpr {
        Self::column_expr()
    }
    fn column_expr() -> ColumnExpr {
        ColumnExpr::Column { table: "active_authors", name: "UserName" }
    }
}

#[test]
fn from_subquery_select_all() {
    let inner = QueryBuilder::new()
        .from::<Users>()
        .select_all()
        .where_clause(WhereClause::new().eq::<UserName, _>("Alice"))
        .build();

    let sql = QueryBuilder::new().from_subquery::<ActiveAuthors>(inner).select_all().build();

    assert_eq!(
        sql,
        "SELECT * FROM (SELECT * FROM users WHERE (UserName = 'Alice')) AS active_authors"
    );
}

#[test]
fn from_subquery_with_where() {
    let inner = QueryBuilder::new().from::<Users>().select::<(UserId,)>().build();

    let sql = QueryBuilder::new()
        .from_subquery::<ActiveAuthors>(inner)
        .select::<(ActiveUserId,)>()
        .where_clause(WhereClause::new().eq::<ActiveUserName, _>("Bob"))
        .build();

    assert_eq!(
        sql,
        "SELECT active_authors.UserId FROM (SELECT users.UserId FROM users) AS active_authors WHERE (UserName = 'Bob')"
    );
}

// ── WHERE IN subquery ─────────────────────────────────────────────────────────

#[test]
fn where_in_subquery() {
    let inner = QueryBuilder::new()
        .from::<Users>()
        .select::<(UserId,)>()
        .where_clause(WhereClause::new().eq::<UserName, _>("Alice"))
        .into_subquery();

    let sql = QueryBuilder::new()
        .from::<Posts>()
        .select_all()
        .where_clause(WhereClause::new().in_subquery::<PostAuthorId>(inner))
        .build();

    assert_eq!(
        sql,
        "SELECT * FROM posts WHERE (AuthorId IN (SELECT users.UserId FROM users WHERE (UserName = 'Alice')))"
    );
}

#[test]
fn where_not_in_subquery() {
    let inner = QueryBuilder::new().from::<Users>().select::<(UserId,)>().into_subquery();

    let sql = QueryBuilder::new()
        .from::<Posts>()
        .select_all()
        .where_clause(WhereClause::new().not_in_subquery::<PostAuthorId>(inner))
        .build();

    assert_eq!(
        sql,
        "SELECT * FROM posts WHERE (AuthorId NOT IN (SELECT users.UserId FROM users))"
    );
}

// ── WHERE EXISTS / NOT EXISTS ─────────────────────────────────────────────────

#[test]
fn where_exists_subquery() {
    let inner = QueryBuilder::new()
        .from::<Users>()
        .select::<(UserId,)>()
        .where_clause(WhereClause::new().eq::<UserName, _>("Alice"))
        .build();

    let sql = QueryBuilder::new()
        .from::<Posts>()
        .select_all()
        .where_clause(WhereClause::<Posts, _>::new().exists_query(inner))
        .build();

    assert_eq!(
        sql,
        "SELECT * FROM posts WHERE (EXISTS (SELECT users.UserId FROM users WHERE (UserName = 'Alice')))"
    );
}

#[test]
fn where_not_exists_subquery() {
    let inner = QueryBuilder::new().from::<Users>().select::<(UserId,)>().build();

    let sql = QueryBuilder::new()
        .from::<Posts>()
        .select_all()
        .where_clause(WhereClause::<Posts, _>::new().not_exists(inner))
        .build();

    assert_eq!(sql, "SELECT * FROM posts WHERE (NOT EXISTS (SELECT users.UserId FROM users))");
}

#[test]
fn chained_in_subquery_and_eq() {
    let inner = QueryBuilder::new().from::<Users>().select::<(UserId,)>().into_subquery();

    let sql = QueryBuilder::new()
        .from::<Posts>()
        .select_all()
        .where_clause(
            WhereClause::new().in_subquery::<PostAuthorId>(inner).and().eq::<Title, _>("Hello"),
        )
        .build();

    assert_eq!(
        sql,
        "SELECT * FROM posts WHERE (AuthorId IN (SELECT users.UserId FROM users) AND Title = 'Hello')"
    );
}

// ── INSERT ────────────────────────────────────────────────────────────────────

#[test]
fn insert_single_column() {
    let mut runner = StringRunner::new();
    InsertBuilder::new().into_table::<Users>().value::<UserName, _>("Alice").execute(&mut runner).unwrap();
    assert_eq!(runner.query().unwrap(), "INSERT INTO users (UserName) VALUES ('Alice')");
}

#[test]
fn insert_multiple_columns() {
    let mut runner = StringRunner::new();
    InsertBuilder::new()
        .into_table::<Users>()
        .value::<UserName, _>("Alice")
        .value::<UserId, _>(42_i64)
        .execute(&mut runner)
        .unwrap();
    assert_eq!(runner.query().unwrap(), "INSERT INTO users (UserName, UserId) VALUES ('Alice', 42)");
}

#[test]
fn insert_bool_value() {
    let mut runner = StringRunner::new();
    InsertBuilder::new()
        .into_table::<Posts>()
        .value::<Title, _>("Hello")
        .value::<PostAuthorId, _>(1_i64)
        .execute(&mut runner)
        .unwrap();
    assert_eq!(runner.query().unwrap(), "INSERT INTO posts (Title, AuthorId) VALUES ('Hello', 1)");
}

#[test]
fn insert_string_with_single_quote_escaped() {
    let mut runner = StringRunner::new();
    InsertBuilder::new()
        .into_table::<Users>()
        .value::<UserName, _>("O'Brien")
        .execute(&mut runner)
        .unwrap();
    assert_eq!(runner.query().unwrap(), "INSERT INTO users (UserName) VALUES ('O''Brien')");
}

// ── UPDATE ────────────────────────────────────────────────────────────────────

#[test]
fn update_single_column_with_where() {
    let mut runner = StringRunner::new();
    UpdateBuilder::new()
        .table::<Users>()
        .set::<UserName, _>("Bob")
        .where_clause(WhereClause::<Users, _>::new().eq::<UserId, _>(1_i64))
        .execute(&mut runner)
        .unwrap();
    assert_eq!(runner.query().unwrap(), "UPDATE users SET UserName = 'Bob' WHERE (UserId = 1)");
}

#[test]
fn update_multiple_columns_with_where() {
    let mut runner = StringRunner::new();
    UpdateBuilder::new()
        .table::<Users>()
        .set::<UserName, _>("Carol")
        .set::<UserId, _>(99_i64)
        .where_clause(WhereClause::<Users, _>::new().lt::<UserId, _>(10_i64))
        .execute(&mut runner)
        .unwrap();
    assert_eq!(
        runner.query().unwrap(),
        "UPDATE users SET UserName = 'Carol', UserId = 99 WHERE (UserId < 10)"
    );
}

#[test]
fn update_without_where() {
    let mut runner = StringRunner::new();
    UpdateBuilder::new().table::<Posts>().set::<Title, _>("Untitled").execute(&mut runner).unwrap();
    assert_eq!(runner.query().unwrap(), "UPDATE posts SET Title = 'Untitled'");
}

#[test]
fn update_set_null_nullable_column() {
    let mut runner = StringRunner::new();
    UpdateBuilder::new()
        .table::<Users>()
        .set::<UserName, _>("Dave")
        .set_null::<Email>()
        .where_clause(WhereClause::<Users, _>::new().eq::<UserId, _>(5_i64))
        .execute(&mut runner)
        .unwrap();
    assert_eq!(
        runner.query().unwrap(),
        "UPDATE users SET UserName = 'Dave', Email = NULL WHERE (UserId = 5)"
    );
}

// ── DELETE ────────────────────────────────────────────────────────────────────

#[test]
fn delete_with_where() {
    let mut runner = StringRunner::new();
    DeleteBuilder::new()
        .from::<Users>()
        .where_clause(WhereClause::<Users, _>::new().eq::<UserId, _>(7_i64))
        .execute(&mut runner)
        .unwrap();
    assert_eq!(runner.query().unwrap(), "DELETE FROM users WHERE (UserId = 7)");
}

#[test]
fn delete_without_where() {
    let mut runner = StringRunner::new();
    DeleteBuilder::new().from::<Users>().execute(&mut runner).unwrap();
    assert_eq!(runner.query().unwrap(), "DELETE FROM users");
}

#[test]
fn delete_with_compound_where() {
    let mut runner = StringRunner::new();
    DeleteBuilder::new()
        .from::<Posts>()
        .where_clause(
            WhereClause::<Posts, _>::new().is_not_null::<Draft>().and().lt::<PostId, _>(100_i64),
        )
        .execute(&mut runner)
        .unwrap();
    assert_eq!(
        runner.query().unwrap(),
        "DELETE FROM posts WHERE (Draft IS NOT NULL AND PostId < 100)"
    );
}

#[test]
fn delete_multiple_where_clauses_joined_with_and() {
    let mut runner = StringRunner::new();
    DeleteBuilder::new()
        .from::<Users>()
        .where_clause(WhereClause::<Users, _>::new().gt::<UserId, _>(50_i64))
        .where_clause(WhereClause::<Users, _>::new().is_null::<Email>())
        .execute(&mut runner)
        .unwrap();
    assert_eq!(
        runner.query().unwrap(),
        "DELETE FROM users WHERE (UserId > 50) AND (Email IS NULL)"
    );
}
