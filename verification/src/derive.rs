//! What `#[derive(Table)]` decides about a struct: the table's SQL name, its
//! column module, and for each field the column type, SQL name, nullability,
//! value type and keys, or why the struct cannot be a table. `derive_table`
//! reads the struct's source text with syn into a plain description of it,
//! and `derive_impl` decides from that description.
use quote::ToTokens;
use vstd::prelude::*;

use crate::text::push_char;

verus! {

// ── The struct, as the derive reads it ───────────────────────────────────────

/// What an attribute holds after its path.
pub enum AttrMeta {
    /// `#[name]`
    Path,
    /// `#[name(...)]`: the identifier where the parentheses hold exactly one.
    List(Option<String>),
    /// `#[name = "text"]`
    NameValueStr(String),
    /// `#[name = ...]` with anything but a string literal.
    NameValueOther,
}

/// An attribute: its path where that is a single identifier (empty
/// otherwise), and what follows.
pub struct Attr {
    pub path: String,
    pub meta: AttrMeta,
}

/// A type as written.
pub enum TypeModel {
    /// A path such as `Option<i64>`, segment by segment.
    Path(Vec<TypeSegment>),
    /// Any other type, by its text.
    Other(String),
}

pub struct TypeSegment {
    pub ident: String,
    pub args: PathArgs,
}

pub enum PathArgs {
    /// No arguments.
    Plain,
    /// `<...>`
    Angle(Vec<GenericArg>),
    /// `(...)`
    Paren,
}

pub enum GenericArg {
    Type(TypeModel),
    Other,
}

/// A named field.
pub struct FieldInput {
    pub ident: String,
    pub attrs: Vec<Attr>,
    pub ty: TypeModel,
}

/// The item the derive is applied to.
pub enum Shape {
    /// A struct with named fields.
    Named(Vec<FieldInput>),
    /// A tuple or unit struct.
    Unnamed,
    /// An enum or a union.
    NotStruct,
}

pub struct StructInput {
    pub ident: String,
    pub attrs: Vec<Attr>,
    pub shape: Shape,
}

// ── The same, as values ──────────────────────────────────────────────────────

pub enum MetaView {
    Path,
    List(Option<Seq<char>>),
    NameValueStr(Seq<char>),
    NameValueOther,
}

pub struct AttrView {
    pub path: Seq<char>,
    pub meta: MetaView,
}

impl View for Attr {
    type V = AttrView;

    open spec fn view(&self) -> AttrView {
        AttrView {
            path: self.path@,
            meta: match self.meta {
                AttrMeta::Path => MetaView::Path,
                AttrMeta::List(t) => MetaView::List(
                    match t {
                        Some(t) => Some(t@),
                        None => None,
                    },
                ),
                AttrMeta::NameValueStr(v) => MetaView::NameValueStr(v@),
                AttrMeta::NameValueOther => MetaView::NameValueOther,
            },
        }
    }
}

/// Each attribute as a value.
pub open spec fn attrs_view(attrs: Seq<Attr>) -> Seq<AttrView> {
    attrs.map_values(|a: Attr| a@)
}

pub enum TypeView {
    Path(Seq<SegmentView>),
    Other(Seq<char>),
}

pub struct SegmentView {
    pub ident: Seq<char>,
    pub args: ArgsView,
}

pub enum ArgsView {
    Plain,
    Angle(Seq<ArgView>),
    Paren,
}

pub enum ArgView {
    Type(TypeView),
    Other,
}

/// A type as a value.
pub open spec fn type_view(t: TypeModel) -> TypeView
    decreases t, 3nat,
{
    match t {
        TypeModel::Path(segs) => TypeView::Path(segments_view(segs@)),
        TypeModel::Other(s) => TypeView::Other(s@),
    }
}

/// A path segment as a value.
pub open spec fn segment_view(seg: TypeSegment) -> SegmentView
    decreases seg, 2nat,
{
    SegmentView {
        ident: seg.ident@,
        args: match seg.args {
            PathArgs::Plain => ArgsView::Plain,
            PathArgs::Angle(args) => ArgsView::Angle(args_view(args@)),
            PathArgs::Paren => ArgsView::Paren,
        },
    }
}

/// Path segments as values, in order.
pub open spec fn segments_view(segs: Seq<TypeSegment>) -> Seq<SegmentView>
    decreases segs, 3nat,
{
    if segs.len() == 0 {
        seq![]
    } else {
        segments_view(segs.drop_last()).push(segment_view(segs.last()))
    }
}

/// A generic argument as a value.
pub open spec fn arg_view(a: GenericArg) -> ArgView
    decreases a, 2nat,
{
    match a {
        GenericArg::Type(t) => ArgView::Type(type_view(t)),
        GenericArg::Other => ArgView::Other,
    }
}

/// Generic arguments as values, in order.
pub open spec fn args_view(args: Seq<GenericArg>) -> Seq<ArgView>
    decreases args, 3nat,
{
    if args.len() == 0 {
        seq![]
    } else {
        args_view(args.drop_last()).push(arg_view(args.last()))
    }
}

impl View for TypeModel {
    type V = TypeView;

    open spec fn view(&self) -> TypeView {
        type_view(*self)
    }
}

pub struct FieldView {
    pub ident: Seq<char>,
    pub attrs: Seq<AttrView>,
    pub ty: TypeView,
}

impl View for FieldInput {
    type V = FieldView;

    open spec fn view(&self) -> FieldView {
        FieldView { ident: self.ident@, attrs: attrs_view(self.attrs@), ty: self.ty@ }
    }
}

pub enum ShapeView {
    Named(Seq<FieldView>),
    Unnamed,
    NotStruct,
}

pub struct StructView {
    pub ident: Seq<char>,
    pub attrs: Seq<AttrView>,
    pub shape: ShapeView,
}

impl View for StructInput {
    type V = StructView;

    open spec fn view(&self) -> StructView {
        StructView {
            ident: self.ident@,
            attrs: attrs_view(self.attrs@),
            shape: match self.shape {
                Shape::Named(fields) => ShapeView::Named(fields@.map_values(|f: FieldInput| f@)),
                Shape::Unnamed => ShapeView::Unnamed,
                Shape::NotStruct => ShapeView::NotStruct,
            },
        }
    }
}

proof fn lemma_segments_view(segs: Seq<TypeSegment>)
    ensures
        segments_view(segs).len() == segs.len(),
        forall|i: int| 0 <= i < segs.len() ==> #[trigger] segments_view(segs)[i] == segment_view(segs[i]),
    decreases segs.len(),
{
    if segs.len() > 0 {
        lemma_segments_view(segs.drop_last());
        assert forall|i: int| 0 <= i < segs.len() implies #[trigger] segments_view(segs)[i]
            == segment_view(segs[i]) by {
            if i < segs.len() - 1 {
                assert(segs.drop_last()[i] == segs[i]);
            }
        }
    }
}

proof fn lemma_args_view(args: Seq<GenericArg>)
    ensures
        args_view(args).len() == args.len(),
        forall|i: int| 0 <= i < args.len() ==> #[trigger] args_view(args)[i] == arg_view(args[i]),
    decreases args.len(),
{
    if args.len() > 0 {
        lemma_args_view(args.drop_last());
        assert forall|i: int| 0 <= i < args.len() implies #[trigger] args_view(args)[i] == arg_view(
            args[i],
        ) by {
            if i < args.len() - 1 {
                assert(args.drop_last()[i] == args[i]);
            }
        }
    }
}

// ── What the derive decides ──────────────────────────────────────────────────

/// One column: the field, the type generated for it, its SQL name, the type
/// of its values (the field's type, or what its `Option` holds where the
/// column is nullable), and its role.
pub struct ColumnPlan {
    pub field: String,
    pub type_ident: String,
    pub column_name: String,
    pub nullable: bool,
    pub primary_key: bool,
    pub unique: bool,
    pub foreign_key: Option<String>,
    pub value_type: TypeModel,
}

pub struct ColumnView {
    pub field: Seq<char>,
    pub type_ident: Seq<char>,
    pub column_name: Seq<char>,
    pub nullable: bool,
    pub primary_key: bool,
    pub unique: bool,
    pub foreign_key: Option<Seq<char>>,
    pub value_type: TypeView,
}

impl View for ColumnPlan {
    type V = ColumnView;

    open spec fn view(&self) -> ColumnView {
        ColumnView {
            field: self.field@,
            type_ident: self.type_ident@,
            column_name: self.column_name@,
            nullable: self.nullable,
            primary_key: self.primary_key,
            unique: self.unique,
            foreign_key: match self.foreign_key {
                Some(t) => Some(t@),
                None => None,
            },
            value_type: self.value_type@,
        }
    }
}

/// The table: its SQL name, the module of its column types, its columns in
/// field order, and the type of its primary key column where it has one.
pub struct TablePlan {
    pub table_name: String,
    pub module_name: String,
    pub columns: Vec<ColumnPlan>,
    pub primary_key: Option<String>,
}

pub struct TableView {
    pub table_name: Seq<char>,
    pub module_name: Seq<char>,
    pub columns: Seq<ColumnView>,
    pub primary_key: Option<Seq<char>>,
}

impl View for TablePlan {
    type V = TableView;

    open spec fn view(&self) -> TableView {
        TableView {
            table_name: self.table_name@,
            module_name: self.module_name@,
            columns: self.columns@.map_values(|c: ColumnPlan| c@),
            primary_key: match self.primary_key {
                Some(p) => Some(p@),
                None => None,
            },
        }
    }
}

/// Why a struct cannot be a table; a field is named by its position.
#[derive(Clone, Copy, Debug, PartialEq, Eq, Structural)]
pub enum DeriveError {
    /// `#[derive(Table)] only works on structs`
    StructRequired,
    /// `#[derive(Table)] requires named fields`
    NamedFieldsRequired,
    /// `#[foreign_key(..)]` does not hold exactly one identifier.
    ForeignKeyNotIdent(usize),
    /// `expected #[column_name = "sql_name"]`
    ColumnNameNotString(usize),
    /// `only one #[primary_key] is allowed per table`
    DuplicatePrimaryKey(usize),
    /// `#[primary_key] field cannot be Option<T>`
    NullablePrimaryKey(usize),
    /// The text is not an item that syn can read.
    Unparsable,
}

// ── std's case mappings ──────────────────────────────────────────────────────

/// What `str::to_lowercase` returns for a text.
pub uninterp spec fn lowercase_of(s: Seq<char>) -> Seq<char>;

/// What `char::to_uppercase` yields for a character.
pub uninterp spec fn uppercase_of(c: char) -> Seq<char>;

/// The ASCII case mapping of one character, towards lower case.
pub open spec fn ascii_lower(c: char) -> char {
    if 'A' <= c <= 'Z' {
        ((c as int) + 32) as char
    } else {
        c
    }
}

/// The ASCII case mapping of one character, towards upper case.
pub open spec fn ascii_upper(c: char) -> char {
    if 'a' <= c <= 'z' {
        ((c as int) - 32) as char
    } else {
        c
    }
}

pub open spec fn is_ascii_text(s: Seq<char>) -> bool {
    forall|i: int| 0 <= i < s.len() ==> (#[trigger] s[i] as int) < 128
}

/// The lower-case form of a text: where it is ASCII, `A`..`Z` become
/// `a`..`z`; otherwise what std's Unicode mapping gives.
pub open spec fn lower_text(s: Seq<char>) -> Seq<char> {
    if is_ascii_text(s) {
        s.map_values(|c: char| ascii_lower(c))
    } else {
        lowercase_of(s)
    }
}

/// The upper-case form of a character: for ASCII, `a`..`z` become `A`..`Z`;
/// otherwise what std's Unicode mapping gives, which may be several characters.
pub open spec fn upper_text(c: char) -> Seq<char> {
    if (c as int) < 128 {
        seq![ascii_upper(c)]
    } else {
        uppercase_of(c)
    }
}

/// std's `str::to_lowercase`. Its documentation gives the Unicode lower-case
/// mapping; of it the contract states only the ASCII part, which maps `A`..`Z`
/// to `a`..`z` and keeps every other ASCII character.
#[verifier::external_body]
fn to_lowercase(s: &str) -> (r: String)
    ensures
        r@ == lowercase_of(s@),
        is_ascii_text(s@) ==> r@ == s@.map_values(|c: char| ascii_lower(c)),
{
    s.to_lowercase()
}

/// std's `char::to_uppercase`, its characters collected into a text. Its
/// documentation gives the Unicode upper-case mapping; of it the contract
/// states only the ASCII part, which maps `a`..`z` to `A`..`Z` and keeps every
/// other ASCII character.
#[verifier::external_body]
fn uppercase(c: char) -> (r: String)
    ensures
        r@ == uppercase_of(c),
        (c as int) < 128 ==> r@ == seq![ascii_upper(c)],
{
    c.to_uppercase().collect()
}

// ── Specification ─────────────────────────────────────────────────────────────

/// Whether some attribute has exactly the path `name`.
pub open spec fn has_attr_spec(attrs: Seq<AttrView>, name: Seq<char>) -> bool {
    exists|i: int| 0 <= i < attrs.len() && (#[trigger] attrs[i]).path == name
}

/// The value of the first `#[table_name = "..."]`; attributes of that name in
/// another form are passed over.
pub open spec fn table_name_attr(attrs: Seq<AttrView>) -> Option<Seq<char>>
    decreases attrs.len(),
{
    if attrs.len() == 0 {
        None
    } else if attrs[0].path == "table_name"@ && attrs[0].meta is NameValueStr {
        Some(attrs[0].meta->NameValueStr_0)
    } else {
        table_name_attr(attrs.drop_first())
    }
}

/// What the first attribute of a given path says.
pub enum Lookup {
    Absent,
    Found(Seq<char>),
    Malformed,
}

/// The first `#[foreign_key(Table)]`: its table, or `Malformed` where it does
/// not hold exactly one identifier.
pub open spec fn foreign_key_attr(attrs: Seq<AttrView>) -> Lookup
    decreases attrs.len(),
{
    if attrs.len() == 0 {
        Lookup::Absent
    } else if attrs[0].path == "foreign_key"@ {
        match attrs[0].meta {
            MetaView::List(Some(t)) => Lookup::Found(t),
            _ => Lookup::Malformed,
        }
    } else {
        foreign_key_attr(attrs.drop_first())
    }
}

/// The first `#[column_name = "..."]`: its value, or `Malformed` where it is in
/// another form.
pub open spec fn column_name_attr(attrs: Seq<AttrView>) -> Lookup
    decreases attrs.len(),
{
    if attrs.len() == 0 {
        Lookup::Absent
    } else if attrs[0].path == "column_name"@ {
        match attrs[0].meta {
            MetaView::NameValueStr(v) => Lookup::Found(v),
            _ => Lookup::Malformed,
        }
    } else {
        column_name_attr(attrs.drop_first())
    }
}

/// What an `Option<..>` type holds: a path whose last segment is `Option`
/// with a type as its first angle-bracketed argument.
pub open spec fn option_inner(ty: TypeView) -> Option<TypeView> {
    match ty {
        TypeView::Path(segs) => if segs.len() > 0 && segs.last().ident == "Option"@ {
            match segs.last().args {
                ArgsView::Angle(args) => if args.len() > 0 {
                    match args[0] {
                        ArgView::Type(inner) => Some(inner),
                        ArgView::Other => None,
                    }
                } else {
                    None
                },
                _ => None,
            }
        } else {
            None
        },
        TypeView::Other(_) => None,
    }
}

/// Whether the character after `prefix` starts a word of a snake-case name.
pub open spec fn starts_word(prefix: Seq<char>) -> bool {
    prefix.len() == 0 || prefix.last() == '_'
}

/// The PascalCase form of a snake-case name: split at each `_`, the first
/// character of each piece in upper case, the pieces joined.
pub open spec fn pascal_case(s: Seq<char>) -> Seq<char>
    decreases s.len(),
{
    if s.len() == 0 {
        seq![]
    } else {
        pascal_case(s.drop_last()) + if s.last() == '_' {
            seq![]
        } else if starts_word(s.drop_last()) {
            upper_text(s.last())
        } else {
            seq![s.last()]
        }
    }
}

/// Whether a text has no `_`.
pub open spec fn no_underscore(s: Seq<char>) -> bool {
    forall|i: int| 0 <= i < s.len() ==> #[trigger] s[i] != '_'
}

proof fn lemma_ascii_upper(c: char)
    requires
        (c as int) < 128,
    ensures
        (ascii_upper(c) as int) < 128,
        ascii_upper(ascii_upper(c)) == ascii_upper(c),
        c != '_' ==> ascii_upper(c) != '_',
{
    if 'a' <= c <= 'z' {
        assert(ascii_upper(c) as int == c as int - 32);
    }
}

/// The PascalCase form of ASCII text is ASCII, has no `_`, and begins with a
/// character that upper-casing keeps; it is empty only where the text ends in
/// `_` or is empty.
pub proof fn lemma_pascal_case_shape(s: Seq<char>)
    requires
        is_ascii_text(s),
    ensures
        is_ascii_text(pascal_case(s)),
        no_underscore(pascal_case(s)),
        pascal_case(s).len() > 0 ==> ascii_upper(pascal_case(s)[0]) == pascal_case(s)[0],
        s.len() > 0 && s.last() != '_' ==> pascal_case(s).len() > 0,
    decreases s.len(),
{
    if s.len() > 0 {
        let init = s.drop_last();
        let c = s.last();
        assert(is_ascii_text(init)) by {
            assert forall|i: int| 0 <= i < init.len() implies (#[trigger] init[i] as int) < 128 by {
                assert(init[i] == s[i]);
            }
        }
        assert((c as int) < 128) by {
            assert(c == s[s.len() - 1]);
        }
        lemma_pascal_case_shape(init);
        lemma_ascii_upper(c);
        let p0 = pascal_case(init);
        let piece = if c == '_' {
            Seq::<char>::empty()
        } else if starts_word(init) {
            upper_text(c)
        } else {
            seq![c]
        };
        assert(pascal_case(s) == p0 + piece);
        let p = p0 + piece;
        assert forall|i: int| 0 <= i < p.len() implies (#[trigger] p[i] as int) < 128 && p[i] != '_' by {
            if i < p0.len() {
                assert(p[i] == p0[i]);
            } else {
                assert(p[i] == piece[i - p0.len()]);
            }
        }
        if p0.len() == 0 && piece.len() > 0 {
            assert(!starts_word(init) ==> init.len() > 0 && init.last() != '_');
            assert(p[0] == piece[0]);
        } else if p0.len() > 0 {
            assert(p[0] == p0[0]);
        }
    }
}

/// The PascalCase form of ASCII text without `_` upper-cases its first
/// character and keeps the rest.
pub proof fn lemma_pascal_case_plain(t: Seq<char>)
    requires
        is_ascii_text(t),
        no_underscore(t),
        t.len() > 0,
    ensures
        pascal_case(t) == seq![ascii_upper(t[0])] + t.drop_first(),
    decreases t.len(),
{
    let init = t.drop_last();
    if t.len() == 1 {
        assert(init =~= Seq::<char>::empty());
        assert((t[0] as int) < 128);
        assert(t[0] != '_');
        assert(t.last() == t[0]);
        assert(pascal_case(init) =~= Seq::<char>::empty());
        assert(upper_text(t[0]) == seq![ascii_upper(t[0])]);
        assert(pascal_case(t) == pascal_case(init) + upper_text(t.last()));
        assert(t.drop_first() =~= Seq::<char>::empty());
        assert(pascal_case(t) =~= seq![ascii_upper(t[0])] + t.drop_first());
    } else {
        assert(is_ascii_text(init)) by {
            assert forall|i: int| 0 <= i < init.len() implies (#[trigger] init[i] as int) < 128 by {
                assert(init[i] == t[i]);
            }
        }
        assert(no_underscore(init)) by {
            assert forall|i: int| 0 <= i < init.len() implies #[trigger] init[i] != '_' by {
                assert(init[i] == t[i]);
            }
        }
        assert(t.last() != '_') by {
            assert(t.last() == t[t.len() - 1]);
        }
        assert(init.last() != '_') by {
            assert(init.last() == t[t.len() - 2]);
        }
        lemma_pascal_case_plain(init);
        assert(!starts_word(init));
        assert(pascal_case(t) == pascal_case(init) + seq![t.last()]);
        assert(init[0] == t[0]);
        assert(seq![ascii_upper(t[0])] + t.drop_first() =~= seq![ascii_upper(t[0])] + init.drop_first() + seq![t.last()]);
    }
}

/// The column a field becomes, where its attributes are well formed.
pub open spec fn column_of(f: FieldView) -> ColumnView {
    ColumnView {
        field: f.ident,
        type_ident: pascal_case(f.ident),
        column_name: match column_name_attr(f.attrs) {
            Lookup::Found(c) => c,
            _ => f.ident,
        },
        nullable: option_inner(f.ty) is Some,
        primary_key: has_attr_spec(f.attrs, "primary_key"@),
        unique: has_attr_spec(f.attrs, "unique"@),
        foreign_key: match foreign_key_attr(f.attrs) {
            Lookup::Found(t) => Some(t),
            _ => None,
        },
        value_type: match option_inner(f.ty) {
            Some(inner) => inner,
            None => f.ty,
        },
    }
}

/// The columns of the fields, in order, and the primary key's column type;
/// or the first field's error, checked field by field in order.
pub open spec fn fields_plan(fields: Seq<FieldView>) -> Result<
    (Seq<ColumnView>, Option<Seq<char>>),
    DeriveError,
>
    decreases fields.len(),
{
    if fields.len() == 0 {
        Ok((seq![], None))
    } else {
        match fields_plan(fields.drop_last()) {
            Err(e) => Err(e),
            Ok((cols, pk)) => {
                let f = fields.last();
                let at = (fields.len() - 1) as usize;
                let c = column_of(f);
                if foreign_key_attr(f.attrs) is Malformed {
                    Err(DeriveError::ForeignKeyNotIdent(at))
                } else if column_name_attr(f.attrs) is Malformed {
                    Err(DeriveError::ColumnNameNotString(at))
                } else if c.primary_key && pk is Some {
                    Err(DeriveError::DuplicatePrimaryKey(at))
                } else if c.primary_key && c.nullable {
                    Err(DeriveError::NullablePrimaryKey(at))
                } else {
                    Ok(
                        (
                            cols.push(c),
                            if c.primary_key {
                                Some(c.type_ident)
                            } else {
                                pk
                            },
                        ),
                    )
                }
            },
        }
    }
}

/// What the derive makes of a struct.
pub open spec fn table_plan(input: StructView) -> Result<TableView, DeriveError> {
    match input.shape {
        ShapeView::Named(fields) => match fields_plan(fields) {
            Err(e) => Err(e),
            Ok((cols, pk)) => Ok(
                TableView {
                    table_name: match table_name_attr(input.attrs) {
                        Some(t) => t,
                        None => lower_text(input.ident),
                    },
                    module_name: lower_text(input.ident),
                    columns: cols,
                    primary_key: pk,
                },
            ),
        },
        ShapeView::Unnamed => Err(DeriveError::NamedFieldsRequired),
        ShapeView::NotStruct => Err(DeriveError::StructRequired),
    }
}

/// Once a prefix of the fields fails, the whole list fails with its error.
pub proof fn lemma_fields_plan_keeps_error(fields: Seq<FieldView>, i: int)
    requires
        0 <= i <= fields.len(),
        fields_plan(fields.take(i)) is Err,
    ensures
        fields_plan(fields) == fields_plan(fields.take(i)),
    decreases fields.len(),
{
    if i == fields.len() {
        assert(fields.take(i) =~= fields);
    } else {
        assert(fields.drop_last().take(i) =~= fields.take(i));
        lemma_fields_plan_keeps_error(fields.drop_last(), i);
    }
}

// ── The decisions ─────────────────────────────────────────────────────────────

/// The PascalCase form of a snake-case name.
pub fn to_pascal_case(s: &str) -> (r: String)
    ensures
        r@ == pascal_case(s@),
{
    broadcast use vstd::string::group_string_axioms;

    let mut out = String::new();
    let mut at_start = true;
    for c in it: s.chars()
        invariant
            it.seq() == s@,
            out@ == pascal_case(s@.take(it.index() as int)),
            at_start == starts_word(s@.take(it.index() as int)),
    {
        let ghost i = it.index() as int;
        assert(s@.take(i + 1).drop_last() =~= s@.take(i));
        assert(s@.take(i + 1).last() == c);
        if c == '_' {
            at_start = true;
        } else if at_start {
            let upper = uppercase(c);
            out.append(upper.as_str());
            at_start = false;
        } else {
            push_char(&mut out, c);
        }
    }
    assert(s@.take(s@.len() as int) =~= s@);
    out
}

fn has_attr(attrs: &Vec<Attr>, name: &str) -> (b: bool)
    ensures
        b == has_attr_spec(attrs_view(attrs@), name@),
{
    let wanted = String::from_str(name);
    let mut i: usize = 0;
    while i < attrs.len()
        invariant
            i <= attrs@.len(),
            wanted@ == name@,
            forall|j: int| 0 <= j < i ==> (#[trigger] attrs@[j]).path@ != name@,
        decreases attrs@.len() - i,
    {
        if attrs[i].path == wanted {
            assert(attrs_view(attrs@)[i as int].path == name@);
            return true;
        }
        i = i + 1;
    }
    assert forall|j: int| 0 <= j < attrs@.len() implies (#[trigger] attrs_view(attrs@)[j]).path
        != name@ by {
        assert(attrs_view(attrs@)[j] == attrs@[j]@);
    }
    false
}

/// The value of the first well-formed `#[table_name = "..."]`.
fn get_table_name(attrs: &Vec<Attr>) -> (r: Option<String>)
    ensures
        match r {
            Some(t) => table_name_attr(attrs_view(attrs@)) == Some(t@),
            None => table_name_attr(attrs_view(attrs@)) is None,
        },
{
    let ghost view = attrs_view(attrs@);
    let wanted = String::from_str("table_name");
    let mut i: usize = 0;
    assert(view.skip(0) =~= view);
    while i < attrs.len()
        invariant
            i <= attrs@.len(),
            view == attrs_view(attrs@),
            wanted@ == "table_name"@,
            table_name_attr(view) == table_name_attr(view.skip(i as int)),
        decreases attrs@.len() - i,
    {
        assert(view.skip(i as int).drop_first() =~= view.skip(i + 1));
        assert(view.skip(i as int)[0] == attrs@[i as int]@);
        let a = &attrs[i];
        if a.path == wanted {
            if let AttrMeta::NameValueStr(v) = &a.meta {
                return Some(v.clone());
            }
        }
        i = i + 1;
    }
    None
}

/// The table that the first `#[foreign_key(..)]` names, or the position of
/// the field where it does not hold exactly one identifier.
fn get_fk_ref(attrs: &Vec<Attr>, at: usize) -> (r: Result<Option<String>, DeriveError>)
    ensures
        match r {
            Ok(Some(t)) => foreign_key_attr(attrs_view(attrs@)) == Lookup::Found(t@),
            Ok(None) => foreign_key_attr(attrs_view(attrs@)) is Absent,
            Err(e) => foreign_key_attr(attrs_view(attrs@)) is Malformed && e
                == DeriveError::ForeignKeyNotIdent(at),
        },
{
    let ghost view = attrs_view(attrs@);
    let wanted = String::from_str("foreign_key");
    let mut i: usize = 0;
    assert(view.skip(0) =~= view);
    while i < attrs.len()
        invariant
            i <= attrs@.len(),
            view == attrs_view(attrs@),
            wanted@ == "foreign_key"@,
            foreign_key_attr(view) == foreign_key_attr(view.skip(i as int)),
        decreases attrs@.len() - i,
    {
        assert(view.skip(i as int).drop_first() =~= view.skip(i + 1));
        assert(view.skip(i as int)[0] == attrs@[i as int]@);
        let a = &attrs[i];
        if a.path == wanted {
            return match &a.meta {
                AttrMeta::List(Some(t)) => Ok(Some(t.clone())),
                _ => Err(DeriveError::ForeignKeyNotIdent(at)),
            };
        }
        i = i + 1;
    }
    Ok(None)
}

/// The value of the first `#[column_name = "..."]`, or the position of the
/// field where it is in another form.
fn get_col_name(attrs: &Vec<Attr>, at: usize) -> (r: Result<Option<String>, DeriveError>)
    ensures
        match r {
            Ok(Some(c)) => column_name_attr(attrs_view(attrs@)) == Lookup::Found(c@),
            Ok(None) => column_name_attr(attrs_view(attrs@)) is Absent,
            Err(e) => column_name_attr(attrs_view(attrs@)) is Malformed && e
                == DeriveError::ColumnNameNotString(at),
        },
{
    let ghost view = attrs_view(attrs@);
    let wanted = String::from_str("column_name");
    let mut i: usize = 0;
    assert(view.skip(0) =~= view);
    while i < attrs.len()
        invariant
            i <= attrs@.len(),
            view == attrs_view(attrs@),
            wanted@ == "column_name"@,
            column_name_attr(view) == column_name_attr(view.skip(i as int)),
        decreases attrs@.len() - i,
    {
        assert(view.skip(i as int).drop_first() =~= view.skip(i + 1));
        assert(view.skip(i as int)[0] == attrs@[i as int]@);
        let a = &attrs[i];
        if a.path == wanted {
            return match &a.meta {
                AttrMeta::NameValueStr(v) => Ok(Some(v.clone())),
                _ => Err(DeriveError::ColumnNameNotString(at)),
            };
        }
        i = i + 1;
    }
    Ok(None)
}

/// The type an `Option<..>` holds, and `true`; or the type itself and `false`.
pub fn unwrap_option(ty: &TypeModel) -> (r: (&TypeModel, bool))
    ensures
        match option_inner(ty@) {
            Some(inner) => r.0@ == inner && r.1,
            None => *r.0 == *ty && !r.1,
        },
{
    if let TypeModel::Path(segs) = ty {
        proof {
            lemma_segments_view(segs@);
        }
        if segs.len() > 0 {
            let seg = &segs[segs.len() - 1];
            if seg.ident == String::from_str("Option") {
                if let PathArgs::Angle(args) = &seg.args {
                    proof {
                        lemma_args_view(args@);
                    }
                    if args.len() > 0 {
                        if let GenericArg::Type(inner) = &args[0] {
                            return (inner, true);
                        }
                    }
                }
            }
        }
    }
    (ty, false)
}

/// The type of a field's values: what its `Option` holds, or the type itself.
fn value_type(ty: TypeModel) -> (r: TypeModel)
    ensures
        r@ == match option_inner(ty@) {
            Some(inner) => inner,
            None => ty@,
        },
{
    if !unwrap_option(&ty).1 {
        return ty;
    }
    match ty {
        TypeModel::Path(mut segs) => {
            proof {
                lemma_segments_view(segs@);
            }
            let seg = segs.pop().unwrap();
            match seg.args {
                PathArgs::Angle(mut args) => {
                    proof {
                        lemma_args_view(args@);
                    }
                    // `unwrap_option` found a type argument first, so the
                    // other arms are not reached.
                    match args.remove(0) {
                        GenericArg::Type(inner) => inner,
                        GenericArg::Other => TypeModel::Other(String::new()),
                    }
                },
                _ => TypeModel::Other(String::new()),
            }
        },
        TypeModel::Other(s) => TypeModel::Other(s),
    }
}

/// What `#[derive(Table)]` makes of a struct: its table, or the first reason,
/// field by field in order, why it cannot be one.
pub fn derive_impl(input: StructInput) -> (r: Result<TablePlan, DeriveError>)
    ensures
        match r {
            Ok(p) => table_plan(input@) == Ok::<TableView, DeriveError>(p@),
            Err(e) => table_plan(input@) == Err::<TableView, DeriveError>(e),
        },
{
    let ghost whole = input@;
    let table_name = match get_table_name(&input.attrs) {
        Some(t) => t,
        None => to_lowercase(input.ident.as_str()),
    };
    let module_name = to_lowercase(input.ident.as_str());
    let fields = match input.shape {
        Shape::Named(fields) => fields,
        Shape::Unnamed => {
            return Err(DeriveError::NamedFieldsRequired);
        },
        Shape::NotStruct => {
            return Err(DeriveError::StructRequired);
        },
    };
    let ghost fviews = fields@.map_values(|f: FieldInput| f@);
    assert(whole.shape == ShapeView::Named(fviews));
    let mut pk_col: Option<String> = None;
    let mut columns: Vec<ColumnPlan> = Vec::new();
    let n = fields.len();
    let mut i: usize = 0;
    for field in it: fields
        invariant
            it.seq() == fields@,
            fviews == fields@.map_values(|f: FieldInput| f@),
            whole == input@,
            whole.shape == ShapeView::Named(fviews),
            i == it.index(),
            i <= fields@.len(),
            fields@.len() == n,
            fields_plan(fviews.take(i as int)) matches Ok((cols, pk)) && cols.len()
                == columns@.len() && (forall|j: int|
                0 <= j < cols.len() ==> #[trigger] cols[j] == columns@[j]@) && pk == match pk_col {
                Some(p) => Some(p@),
                None => None,
            },
    {
        assert(i < fields@.len());
        let ghost prefix = fviews.take(i as int);
        assert(fviews.take(i + 1).drop_last() =~= prefix);
        assert(fviews.take(i + 1).last() == field@);
        proof {
            if fields_plan(fviews.take(i + 1)) is Err {
                lemma_fields_plan_keeps_error(fviews, i + 1);
            }
        }
        let col_struct_ident = to_pascal_case(field.ident.as_str());
        let is_pk = has_attr(&field.attrs, "primary_key");
        let fk_ref = match get_fk_ref(&field.attrs, i) {
            Ok(f) => f,
            Err(e) => {
                return Err(e);
            },
        };
        let is_unique = has_attr(&field.attrs, "unique");
        let col_name = match get_col_name(&field.attrs, i) {
            Ok(Some(c)) => c,
            Ok(None) => field.ident.clone(),
            Err(e) => {
                return Err(e);
            },
        };
        let (_inner, nullable) = unwrap_option(&field.ty);
        if is_pk {
            if pk_col.is_some() {
                return Err(DeriveError::DuplicatePrimaryKey(i));
            }
            if nullable {
                return Err(DeriveError::NullablePrimaryKey(i));
            }
            pk_col = Some(col_struct_ident.clone());
        }
        let col = ColumnPlan {
            field: field.ident,
            type_ident: col_struct_ident,
            column_name: col_name,
            nullable,
            primary_key: is_pk,
            unique: is_unique,
            foreign_key: fk_ref,
            value_type: value_type(field.ty),
        };
        assert(col@ == column_of(fviews[i as int]));
        columns.push(col);
        i = i + 1;
    }
    assert(fviews.take(fviews.len() as int) =~= fviews);
    let plan = TablePlan { table_name, module_name, columns, primary_key: pk_col };
    assert(plan@.columns =~= fields_plan(fviews)->Ok_0.0);
    Ok(plan)
}

// ── Reading the item with syn ────────────────────────────────────────────────

#[verifier::external_type_specification]
#[verifier::external_body]
pub struct ExSynAttribute(syn::Attribute);

#[verifier::external_type_specification]
#[verifier::external_body]
pub struct ExSynField(syn::Field);

#[verifier::external_type_specification]
#[verifier::external_body]
pub struct ExSynType(syn::Type);

#[verifier::external_type_specification]
#[verifier::external_body]
pub struct ExSynPathSegment(syn::PathSegment);

/// What syn reads from the source text of an item, as a value; `None` where
/// syn reports an error.
pub uninterp spec fn syn_item(src: Seq<char>) -> Option<StructView>;

/// syn's `parse_str::<DeriveInput>` on the text of an item, its result
/// converted one for one into a `StructInput`, or `None` on syn's error. The
/// contract names that result; nothing more of syn's grammar is stated.
#[verifier::external_body]
fn parse_struct_input(src: &str) -> (r: Option<StructInput>)
    ensures
        match r {
            Some(input) => syn_item(src@) == Some(input@),
            None => syn_item(src@) is None,
        },
{
    let input = syn::parse_str::<syn::DeriveInput>(src).ok()?;
    let shape = match &input.data {
        syn::Data::Struct(s) => match &s.fields {
            syn::Fields::Named(n) => Shape::Named(n.named.iter().map(field_input).collect()),
            _ => Shape::Unnamed,
        },
        _ => Shape::NotStruct,
    };
    let attrs = input.attrs.iter().map(attr_input).collect();
    Some(StructInput { ident: input.ident.to_string(), attrs, shape })
}

/// A syn attribute, converted for `parse_struct_input`: its path through syn's
/// `Path::get_ident`, its form, and for a list the identifier that syn's
/// `parse_args` reads, if it reads one.
#[verifier::external_body]
fn attr_input(a: &syn::Attribute) -> Attr {
    let path = a.path().get_ident().map(|i| i.to_string()).unwrap_or_default();
    let meta = match &a.meta {
        syn::Meta::Path(_) => AttrMeta::Path,
        syn::Meta::List(_) => AttrMeta::List(a.parse_args::<syn::Ident>().ok().map(|i| i.to_string())),
        syn::Meta::NameValue(nv) => match &nv.value {
            syn::Expr::Lit(syn::ExprLit { lit: syn::Lit::Str(v), .. }) => AttrMeta::NameValueStr(v.value()),
            _ => AttrMeta::NameValueOther,
        },
    };
    Attr { path, meta }
}

/// A syn field, converted for `parse_struct_input`.
#[verifier::external_body]
fn field_input(f: &syn::Field) -> FieldInput {
    let ident = f.ident.as_ref().map(|i| i.to_string()).unwrap_or_default();
    FieldInput { ident, attrs: f.attrs.iter().map(attr_input).collect(), ty: type_input(&f.ty) }
}

/// A syn type, converted for `parse_struct_input`: a path segment by segment,
/// any other type by syn's text of it.
#[verifier::external_body]
fn type_input(t: &syn::Type) -> TypeModel {
    match t {
        syn::Type::Path(tp) => TypeModel::Path(tp.path.segments.iter().map(segment_input).collect()),
        other => TypeModel::Other(other.to_token_stream().to_string()),
    }
}

/// A syn path segment, converted for `type_input`.
#[verifier::external_body]
fn segment_input(s: &syn::PathSegment) -> TypeSegment {
    let args = match &s.arguments {
        syn::PathArguments::None => PathArgs::Plain,
        syn::PathArguments::AngleBracketed(ab) => PathArgs::Angle(ab.args.iter().map(|g| match g {
            syn::GenericArgument::Type(t) => GenericArg::Type(type_input(t)),
            _ => GenericArg::Other,
        }).collect()),
        syn::PathArguments::Parenthesized(_) => PathArgs::Paren,
    };
    TypeSegment { ident: s.ident.to_string(), args }
}

/// What `#[derive(Table)]` makes of an item given by its source text: the
/// item as syn reads it, then its table or the reason it cannot be one.
pub fn derive_table(src: &str) -> (r: Result<TablePlan, DeriveError>)
    ensures
        match syn_item(src@) {
            None => r matches Err(e) && e == DeriveError::Unparsable,
            Some(item) => match r {
                Ok(p) => table_plan(item) == Ok::<TableView, DeriveError>(p@),
                Err(e) => table_plan(item) == Err::<TableView, DeriveError>(e),
            },
        },
{
    match parse_struct_input(src) {
        Some(input) => derive_impl(input),
        None => Err(DeriveError::Unparsable),
    }
}

} // verus!
