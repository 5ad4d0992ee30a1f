//! Statements for the database: SQL text with numbered placeholders and the
//! values bound to them, in order.
//!
//! A value never becomes part of the text. The text is made of fragments
//! that the program itself holds; every value that a request supplied goes
//! into the list of bound values, and the text receives `$1`, `$2`, ... in
//! its place.

use crate::general::{
    FuelType, Gender, Pagination, Position, Profession, Qualification, RiskLevel, SiteType,
    SortDirection,
};
use crate::text::{clone_texts, decimal, join3, opt_text, push_decimal, texts};
use crate::utils::present;
use crate::values::{Date, DateTime, Float32, Float64, Point};
use vstd::prelude::*;
use vstd::string::*;

verus! {

/// The type of a column, for a bound `NULL`.
#[derive(Clone, Copy, Debug, PartialEq, Eq, Structural)]
pub enum SqlType {
    Int,
    Text,
    Position,
    DateTime,
    FuelType,
}

/// A value bound to a placeholder.
#[derive(Clone, Debug, PartialEq, Eq)]
pub enum SqlValue {
    Int(i32),
    BigInt(i64),
    Bool(bool),
    Text(String),
    TextArray(Vec<String>),
    Real(Float32),
    Double(Float64),
    Date(Date),
    DateTime(DateTime),
    Point(Point),
    SiteType(SiteType),
    RiskLevel(RiskLevel),
    Gender(Gender),
    Profession(Profession),
    Qualification(Qualification),
    Position(Position),
    FuelType(FuelType),
    Null(SqlType),
}

/// A bound value as a plain value.
pub enum SqlValueView {
    Int(i32),
    BigInt(i64),
    Bool(bool),
    Text(Seq<char>),
    TextArray(Seq<Seq<char>>),
    Real(Float32),
    Double(Float64),
    Date(Date),
    DateTime(DateTime),
    Point(Point),
    SiteType(SiteType),
    RiskLevel(RiskLevel),
    Gender(Gender),
    Profession(Profession),
    Qualification(Qualification),
    Position(Position),
    FuelType(FuelType),
    Null(SqlType),
}

impl View for SqlValue {
    type V = SqlValueView;

    open spec fn view(&self) -> SqlValueView {
        match self {
            SqlValue::Int(v) => SqlValueView::Int(*v),
            SqlValue::BigInt(v) => SqlValueView::BigInt(*v),
            SqlValue::Bool(v) => SqlValueView::Bool(*v),
            SqlValue::Text(v) => SqlValueView::Text(v@),
            SqlValue::TextArray(v) => SqlValueView::TextArray(texts(v@)),
            SqlValue::Real(v) => SqlValueView::Real(*v),
            SqlValue::Double(v) => SqlValueView::Double(*v),
            SqlValue::Date(v) => SqlValueView::Date(*v),
            SqlValue::DateTime(v) => SqlValueView::DateTime(*v),
            SqlValue::Point(v) => SqlValueView::Point(*v),
            SqlValue::SiteType(v) => SqlValueView::SiteType(*v),
            SqlValue::RiskLevel(v) => SqlValueView::RiskLevel(*v),
            SqlValue::Gender(v) => SqlValueView::Gender(*v),
            SqlValue::Profession(v) => SqlValueView::Profession(*v),
            SqlValue::Qualification(v) => SqlValueView::Qualification(*v),
            SqlValue::Position(v) => SqlValueView::Position(*v),
            SqlValue::FuelType(v) => SqlValueView::FuelType(*v),
            SqlValue::Null(t) => SqlValueView::Null(*t),
        }
    }
}

/// An optional integer as a bound value: `NULL` where it is absent.
pub open spec fn opt_int_value(v: Option<i32>) -> SqlValueView {
    match v {
        Some(n) => SqlValueView::Int(n),
        None => SqlValueView::Null(SqlType::Int),
    }
}

/// An optional text as a bound value: `NULL` where it is absent.
pub open spec fn opt_text_value(v: Option<Seq<char>>) -> SqlValueView {
    match v {
        Some(s) => SqlValueView::Text(s),
        None => SqlValueView::Null(SqlType::Text),
    }
}

/// An optional position as a bound value: `NULL` where it is absent.
pub open spec fn opt_position_value(v: Option<Position>) -> SqlValueView {
    match v {
        Some(p) => SqlValueView::Position(p),
        None => SqlValueView::Null(SqlType::Position),
    }
}

/// An optional timestamp as a bound value: `NULL` where it is absent.
pub open spec fn opt_date_time_value(v: Option<DateTime>) -> SqlValueView {
    match v {
        Some(t) => SqlValueView::DateTime(t),
        None => SqlValueView::Null(SqlType::DateTime),
    }
}

/// An optional fuel type as a bound value: `NULL` where it is absent.
pub open spec fn opt_fuel_type_value(v: Option<FuelType>) -> SqlValueView {
    match v {
        Some(f) => SqlValueView::FuelType(f),
        None => SqlValueView::Null(SqlType::FuelType),
    }
}

/// The pattern that matches every text in which `needle` occurs.
pub open spec fn containing(needle: Seq<char>) -> Seq<char> {
    "%"@ + needle + "%"@
}

impl SqlValue {
    /// A value equal to this one.
    pub fn copy(&self) -> (c: SqlValue)
        ensures
            c@ == self@,
    {
        match self {
            SqlValue::Int(v) => SqlValue::Int(*v),
            SqlValue::BigInt(v) => SqlValue::BigInt(*v),
            SqlValue::Bool(v) => SqlValue::Bool(*v),
            SqlValue::Text(v) => SqlValue::Text(v.clone()),
            SqlValue::TextArray(v) => SqlValue::TextArray(clone_texts(v)),
            SqlValue::Real(v) => SqlValue::Real(*v),
            SqlValue::Double(v) => SqlValue::Double(*v),
            SqlValue::Date(v) => SqlValue::Date(*v),
            SqlValue::DateTime(v) => SqlValue::DateTime(*v),
            SqlValue::Point(v) => SqlValue::Point(*v),
            SqlValue::SiteType(v) => SqlValue::SiteType(*v),
            SqlValue::RiskLevel(v) => SqlValue::RiskLevel(*v),
            SqlValue::Gender(v) => SqlValue::Gender(*v),
            SqlValue::Profession(v) => SqlValue::Profession(*v),
            SqlValue::Qualification(v) => SqlValue::Qualification(*v),
            SqlValue::Position(v) => SqlValue::Position(*v),
            SqlValue::FuelType(v) => SqlValue::FuelType(*v),
            SqlValue::Null(t) => SqlValue::Null(*t),
        }
    }

    /// The text `s` as a bound value.
    pub fn text(s: &str) -> (v: SqlValue)
        ensures
            v@ == SqlValueView::Text(s@),
    {
        SqlValue::Text(String::from_str(s))
    }

    /// The texts `list` as a bound array.
    pub fn text_array(list: &Vec<String>) -> (v: SqlValue)
        ensures
            v@ == SqlValueView::TextArray(texts(list@)),
    {
        SqlValue::TextArray(clone_texts(list))
    }

    /// The pattern `%needle%` as a bound value.
    pub fn pattern(needle: &str) -> (v: SqlValue)
        ensures
            v@ == SqlValueView::Text(containing(needle@)),
    {
        SqlValue::Text(join3("%", needle, "%"))
    }

    /// An optional integer: `NULL` where it is absent.
    pub fn opt_int(v: Option<i32>) -> (b: SqlValue)
        ensures
            b@ == opt_int_value(v),
    {
        match v {
            Some(n) => SqlValue::Int(n),
            None => SqlValue::Null(SqlType::Int),
        }
    }

    /// An optional text: `NULL` where it is absent.
    pub fn opt_text(v: &Option<String>) -> (b: SqlValue)
        ensures
            b@ == opt_text_value(opt_text(*v)),
    {
        match v {
            Some(s) => SqlValue::Text(s.clone()),
            None => SqlValue::Null(SqlType::Text),
        }
    }

    /// An optional position: `NULL` where it is absent.
    pub fn opt_position(v: Option<Position>) -> (b: SqlValue)
        ensures
            b@ == opt_position_value(v),
    {
        match v {
            Some(p) => SqlValue::Position(p),
            None => SqlValue::Null(SqlType::Position),
        }
    }

    /// An optional fuel type: `NULL` where it is absent.
    pub fn opt_fuel_type(v: Option<FuelType>) -> (b: SqlValue)
        ensures
            b@ == opt_fuel_type_value(v),
    {
        match v {
            Some(f) => SqlValue::FuelType(f),
            None => SqlValue::Null(SqlType::FuelType),
        }
    }

    /// An optional timestamp: `NULL` where it is absent.
    pub fn opt_date_time(v: Option<DateTime>) -> (b: SqlValue)
        ensures
            b@ == opt_date_time_value(v),
    {
        match v {
            Some(t) => SqlValue::DateTime(t),
            None => SqlValue::Null(SqlType::DateTime),
        }
    }
}

/// The plain values of a list of bound values.
pub open spec fn values_view(v: Seq<SqlValue>) -> Seq<SqlValueView> {
    Seq::new(v.len(), |i: int| v[i]@)
}

/// A statement: its text and the values bound to its placeholders.
#[derive(Clone, Debug, PartialEq, Eq)]
pub struct Statement {
    pub sql: String,
    pub binds: Vec<SqlValue>,
}

/// A statement as plain values.
pub struct StatementView {
    pub sql: Seq<char>,
    pub binds: Seq<SqlValueView>,
}

impl View for Statement {
    type V = StatementView;

    open spec fn view(&self) -> StatementView {
        StatementView { sql: self.sql@, binds: values_view(self.binds@) }
    }
}

/// The statement with the text `sql` and no bound value.
pub open spec fn fixed(sql: Seq<char>) -> StatementView {
    StatementView { sql, binds: Seq::empty() }
}

/// The placeholder of the `n`th bound value, counting from one.
pub open spec fn placeholder(n: nat) -> Seq<char> {
    "$"@ + decimal(n)
}

impl StatementView {
    /// The statement with `text` added to its end.
    pub open spec fn push_sql(self, text: Seq<char>) -> StatementView {
        StatementView { sql: self.sql + text, binds: self.binds }
    }

    /// The statement with one more bound value, and the placeholder of that
    /// value added to the end of the text.
    pub open spec fn push_bind(self, value: SqlValueView) -> StatementView {
        StatementView {
            sql: self.sql + placeholder(self.binds.len() + 1),
            binds: self.binds.push(value),
        }
    }

    /// The statement with one more bound value and the text unchanged: for
    /// a text that holds its placeholders already.
    pub open spec fn arg(self, value: SqlValueView) -> StatementView {
        StatementView { sql: self.sql, binds: self.binds.push(value) }
    }

    /// The statement between `before` and `after`, with the same bound
    /// values.
    pub open spec fn wrapped(self, before: Seq<char>, after: Seq<char>) -> StatementView {
        StatementView { sql: before + self.sql + after, binds: self.binds }
    }
}

impl Statement {
    /// A statement with the text `sql` and nothing bound.
    pub fn new(sql: &str) -> (s: Statement)
        ensures
            s@ == fixed(sql@),
    {
        let s = Statement { sql: String::from_str(sql), binds: Vec::new() };
        assert(values_view(s.binds@) =~= Seq::empty());
        s
    }

    /// Adds `text` to the end of the statement.
    pub fn push(&mut self, text: &str)
        ensures
            final(self)@ == old(self)@.push_sql(text@),
    {
        self.sql.append(text);
    }

    /// Binds `value`, and adds its placeholder to the end of the text.
    pub fn push_bind(&mut self, value: SqlValue)
        ensures
            final(self)@ == old(self)@.push_bind(value@),
    {
        self.binds.push(value);
        let number: usize = self.binds.len();
        self.sql.append("$");
        push_decimal(&mut self.sql, number as u64);
        assert(values_view(self.binds@) =~= values_view(old(self).binds@).push(value@));
        assert(self.sql@ =~= old(self).sql@ + placeholder(number as nat));
    }

    /// Binds `value` to the next placeholder that the text already holds.
    pub fn bind(self, value: SqlValue) -> (s: Statement)
        ensures
            s@ == self@.arg(value@),
    {
        let mut s = self;
        s.binds.push(value);
        assert(values_view(s.binds@) =~= values_view(self.binds@).push(value@));
        s
    }

    /// The statement between `before` and `after`, with the same values
    /// bound.
    pub fn wrap(&self, before: &str, after: &str) -> (s: Statement)
        ensures
            s@ == self@.wrapped(before@, after@),
    {
        let mut binds: Vec<SqlValue> = Vec::new();
        let mut i: usize = 0;
        while i < self.binds.len()
            invariant
                i <= self.binds.len(),
                binds@.len() == i,
                forall|j: int| 0 <= j < i ==> binds@[j]@ == self.binds@[j]@,
            decreases self.binds.len() - i,
        {
            binds.push(self.binds[i].copy());
            i = i + 1;
        }
        assert(values_view(binds@) =~= values_view(self.binds@));
        Statement { sql: join3(before, self.sql.as_str(), after), binds }
    }
}

/// A piece of a condition: text of the program's own, or a bound value.
#[derive(Clone, Debug, PartialEq, Eq)]
pub enum Piece {
    Sql(&'static str),
    Bind(SqlValue),
}

/// A piece of a condition as a plain value.
pub enum PieceView {
    Sql(Seq<char>),
    Bind(SqlValueView),
}

impl View for Piece {
    type V = PieceView;

    open spec fn view(&self) -> PieceView {
        match self {
            Piece::Sql(t) => PieceView::Sql(t@),
            Piece::Bind(v) => PieceView::Bind(v@),
        }
    }
}

/// The plain values of the pieces of a condition.
pub open spec fn pieces_view(p: Seq<Piece>) -> Seq<PieceView> {
    Seq::new(p.len(), |i: int| p[i]@)
}

/// One condition of a `WHERE` clause, in pieces.
#[derive(Clone, Debug, PartialEq, Eq)]
pub struct Predicate {
    pub pieces: Vec<Piece>,
}

impl View for Predicate {
    type V = Seq<PieceView>;

    open spec fn view(&self) -> Seq<PieceView> {
        pieces_view(self.pieces@)
    }
}

/// The condition `before` + value + `after`.
pub open spec fn bound(before: Seq<char>, value: SqlValueView, after: Seq<char>) -> Seq<PieceView> {
    seq![PieceView::Sql(before), PieceView::Bind(value), PieceView::Sql(after)]
}

/// The condition `before` + value + `between` + value + `after`, the same
/// value bound twice.
pub open spec fn bound_twice(
    before: Seq<char>,
    value: SqlValueView,
    between: Seq<char>,
    after: Seq<char>,
) -> Seq<PieceView> {
    seq![
        PieceView::Sql(before),
        PieceView::Bind(value),
        PieceView::Sql(between),
        PieceView::Bind(value),
        PieceView::Sql(after),
    ]
}

/// The condition that is the text `text` and binds nothing.
pub open spec fn plain(text: Seq<char>) -> Seq<PieceView> {
    seq![PieceView::Sql(text)]
}

/// The conditions that a filter field contributes: one where the field is
/// present, none where it is absent.
pub open spec fn when_present(value: Option<SqlValueView>, before: Seq<char>, after: Seq<char>) -> Seq<
    Seq<PieceView>,
> {
    match value {
        Some(v) => seq![bound(before, v, after)],
        None => Seq::empty(),
    }
}

/// As `when_present`, for a condition that names its value twice.
pub open spec fn when_present_twice(
    value: Option<SqlValueView>,
    before: Seq<char>,
    between: Seq<char>,
    after: Seq<char>,
) -> Seq<Seq<PieceView>> {
    match value {
        Some(v) => seq![bound_twice(before, v, between, after)],
        None => Seq::empty(),
    }
}

/// The conditions that a choice contributes: the text where one was made,
/// none where it was not.
pub open spec fn when_chosen(text: Option<Seq<char>>) -> Seq<Seq<PieceView>> {
    match text {
        Some(t) => seq![plain(t)],
        None => Seq::empty(),
    }
}

/// An optional integer as an optional bound value.
pub open spec fn int_filter(v: Option<i32>) -> Option<SqlValueView> {
    match v {
        Some(n) => Some(SqlValueView::Int(n)),
        None => None,
    }
}

/// An optional 64-bit integer as an optional bound value.
pub open spec fn big_int_filter(v: Option<i64>) -> Option<SqlValueView> {
    match v {
        Some(n) => Some(SqlValueView::BigInt(n)),
        None => None,
    }
}

/// An optional needle as the optional pattern `%needle%`. A needle that
/// is empty is an absent one.
pub open spec fn pattern_filter(v: Option<Seq<char>>) -> Option<SqlValueView> {
    match present(v) {
        Some(s) => Some(SqlValueView::Text(containing(s))),
        None => None,
    }
}

/// An optional text as an optional bound value. A text that is empty is an
/// absent one.
pub open spec fn text_filter(v: Option<Seq<char>>) -> Option<SqlValueView> {
    match present(v) {
        Some(s) => Some(SqlValueView::Text(s)),
        None => None,
    }
}

/// The plain values of a list of conditions.
pub open spec fn predicates_view(p: Seq<Predicate>) -> Seq<Seq<PieceView>> {
    Seq::new(p.len(), |i: int| p[i]@)
}

/// The conditions of a `WHERE` clause, in the order in which they are
/// written.
#[derive(Clone, Debug, PartialEq, Eq)]
pub struct Predicates {
    pub list: Vec<Predicate>,
}

impl View for Predicates {
    type V = Seq<Seq<PieceView>>;

    open spec fn view(&self) -> Seq<Seq<PieceView>> {
        predicates_view(self.list@)
    }
}

impl Predicates {
    /// No condition.
    pub fn new() -> (p: Predicates)
        ensures
            p@ == Seq::<Seq<PieceView>>::empty(),
    {
        let p = Predicates { list: Vec::new() };
        assert(p@ =~= Seq::<Seq<PieceView>>::empty());
        p
    }

    fn add(&mut self, pieces: Vec<Piece>)
        ensures
            final(self)@ == old(self)@.push(pieces_view(pieces@)),
    {
        self.list.push(Predicate { pieces });
        assert(self@ =~= old(self)@.push(pieces_view(pieces@)));
    }

    /// Adds `before` + value + `after` where `value` is present.
    pub fn add_bound(&mut self, value: Option<SqlValue>, before: &'static str, after: &'static str)
        ensures
            final(self)@ == old(self)@ + when_present(
                match value {
                    Some(v) => Some(v@),
                    None => None,
                },
                before@,
                after@,
            ),
    {
        match value {
            Some(v) => {
                let mut pieces: Vec<Piece> = Vec::new();
                pieces.push(Piece::Sql(before));
                pieces.push(Piece::Bind(v));
                pieces.push(Piece::Sql(after));
                assert(pieces_view(pieces@) =~= bound(before@, v@, after@));
                self.add(pieces);
                assert(self@ =~= old(self)@ + seq![bound(before@, v@, after@)]);
            },
            None => {
                assert(self@ =~= old(self)@ + Seq::<Seq<PieceView>>::empty());
            },
        }
    }

    /// Adds `before` + value + `between` + value + `after` where `value`
    /// is present.
    pub fn add_bound_twice(
        &mut self,
        value: Option<SqlValue>,
        before: &'static str,
        between: &'static str,
        after: &'static str,
    )
        ensures
            final(self)@ == old(self)@ + when_present_twice(
                match value {
                    Some(v) => Some(v@),
                    None => None,
                },
                before@,
                between@,
                after@,
            ),
    {
        match value {
            Some(v) => {
                let mut pieces: Vec<Piece> = Vec::new();
                pieces.push(Piece::Sql(before));
                pieces.push(Piece::Bind(v.copy()));
                pieces.push(Piece::Sql(between));
                pieces.push(Piece::Bind(v));
                pieces.push(Piece::Sql(after));
                assert(pieces_view(pieces@) =~= bound_twice(before@, v@, between@, after@));
                self.add(pieces);
                assert(self@ =~= old(self)@ + seq![bound_twice(before@, v@, between@, after@)]);
            },
            None => {
                assert(self@ =~= old(self)@ + Seq::<Seq<PieceView>>::empty());
            },
        }
    }

    /// Adds the condition `text` where one is given.
    pub fn add_chosen(&mut self, text: Option<&'static str>)
        ensures
            final(self)@ == old(self)@ + when_chosen(
                match text {
                    Some(t) => Some(t@),
                    None => None,
                },
            ),
    {
        match text {
            Some(t) => {
                let mut pieces: Vec<Piece> = Vec::new();
                pieces.push(Piece::Sql(t));
                assert(pieces_view(pieces@) =~= plain(t@));
                self.add(pieces);
                assert(self@ =~= old(self)@ + seq![plain(t@)]);
            },
            None => {
                assert(self@ =~= old(self)@ + Seq::<Seq<PieceView>>::empty());
            },
        }
    }
}

/// An optional integer as an optional bound value.
pub fn filter_int(v: Option<i32>) -> (b: Option<SqlValue>)
    ensures
        (match b {
            Some(x) => Some(x@),
            None => None,
        }) == int_filter(v),
{
    match v {
        Some(n) => Some(SqlValue::Int(n)),
        None => None,
    }
}

/// An optional 64-bit integer as an optional bound value.
pub fn filter_big_int(v: Option<i64>) -> (b: Option<SqlValue>)
    ensures
        (match b {
            Some(x) => Some(x@),
            None => None,
        }) == big_int_filter(v),
{
    match v {
        Some(n) => Some(SqlValue::BigInt(n)),
        None => None,
    }
}

/// An optional needle as the optional pattern `%needle%`. A needle that
/// is empty is an absent one.
pub fn filter_pattern(v: &Option<String>) -> (b: Option<SqlValue>)
    ensures
        (match b {
            Some(x) => Some(x@),
            None => None,
        }) == pattern_filter(opt_text(*v)),
{
    match v {
        Some(s) => if s.as_str().is_empty() {
            None
        } else {
            Some(SqlValue::pattern(s.as_str()))
        },
        None => None,
    }
}

/// An optional text as an optional bound value. A text that is empty is an
/// absent one.
pub fn filter_text(v: &Option<String>) -> (b: Option<SqlValue>)
    ensures
        (match b {
            Some(x) => Some(x@),
            None => None,
        }) == text_filter(opt_text(*v)),
{
    match v {
        Some(s) => if s.as_str().is_empty() {
            None
        } else {
            Some(SqlValue::text(s.as_str()))
        },
        None => None,
    }
}

/// The word in front of the `n`th condition, counting from zero: `WHERE`
/// in front of the first, `AND` in front of the others.
pub open spec fn lead(n: int) -> Seq<char> {
    if n == 0 {
        " WHERE "@
    } else {
        " AND "@
    }
}

/// The statement with the pieces added in order: text as it stands, a value
/// as a bound value with its placeholder.
pub open spec fn with_pieces(st: StatementView, pieces: Seq<PieceView>) -> StatementView
    decreases pieces.len(),
{
    if pieces.len() == 0 {
        st
    } else {
        let done = with_pieces(st, pieces.drop_last());
        match pieces.last() {
            PieceView::Sql(t) => done.push_sql(t),
            PieceView::Bind(v) => done.push_bind(v),
        }
    }
}

/// The statement with a `WHERE` clause of the given conditions: nothing for
/// no condition; else the conditions in order, `WHERE` in front of the
/// first and `AND` in front of each other one.
pub open spec fn with_conditions(st: StatementView, conditions: Seq<Seq<PieceView>>) -> StatementView
    decreases conditions.len(),
{
    if conditions.len() == 0 {
        st
    } else {
        with_pieces(
            with_conditions(st, conditions.drop_last()).push_sql(lead(conditions.len() - 1)),
            conditions.last(),
        )
    }
}

/// The text `base` with a `WHERE` clause of the given conditions.
pub open spec fn filtered(base: Seq<char>, conditions: Seq<Seq<PieceView>>) -> StatementView {
    with_conditions(fixed(base), conditions)
}

/// The columns that a listing is ordered by: one column, or one column and
/// a second that orders the rows that the first leaves equal.
#[derive(Clone, Copy, Debug, PartialEq, Eq)]
pub struct Order {
    pub column: &'static str,
    pub second: Option<&'static str>,
}

/// An order as plain values.
pub struct OrderView {
    pub column: Seq<char>,
    pub second: Option<Seq<char>>,
}

impl View for Order {
    type V = OrderView;

    open spec fn view(&self) -> OrderView {
        OrderView {
            column: self.column@,
            second: match self.second {
                Some(c) => Some(c@),
                None => None,
            },
        }
    }
}

/// The order by one column.
pub open spec fn by_column(column: Seq<char>) -> OrderView {
    OrderView { column, second: None }
}

/// The order by `column`, and by `second` among the rows that `column`
/// leaves equal.
pub open spec fn by_columns(column: Seq<char>, second: Seq<char>) -> OrderView {
    OrderView { column, second: Some(second) }
}

impl Order {
    /// The order by one column.
    pub fn by_column(column: &'static str) -> (o: Order)
        ensures
            o@ == by_column(column@),
    {
        Order { column, second: None }
    }

    /// The order by `column`, and by `second` among the rows that `column`
    /// leaves equal.
    pub fn by_columns(column: &'static str, second: &'static str) -> (o: Order)
        ensures
            o@ == by_columns(column@, second@),
    {
        Order { column, second: Some(second) }
    }
}

impl OrderView {
    /// The text of the order in a direction: every column is followed by
    /// the keyword of the direction, with a comma between two columns.
    pub open spec fn text(self, direction: SortDirection) -> Seq<char> {
        match self.second {
            None => self.column + direction.spec_keyword(),
            Some(second) => self.column + direction.spec_keyword() + ", "@ + second
                + direction.spec_keyword(),
        }
    }
}

/// The statement followed by `ORDER BY`, the columns of the order with the
/// direction behind each, and a bound `LIMIT` and `OFFSET` for the page.
pub open spec fn paged(
    st: StatementView,
    order: OrderView,
    direction: SortDirection,
    pagination: Pagination,
) -> StatementView {
    st.push_sql(" ORDER BY "@).push_sql(order.text(direction)).push_sql(" LIMIT "@).push_bind(
        SqlValueView::BigInt(pagination.spec_limit() as i64),
    ).push_sql(" OFFSET "@).push_bind(SqlValueView::BigInt(pagination.spec_offset() as i64))
}

impl Statement {
    /// Adds the pieces of a condition in order.
    fn push_pieces(&mut self, pieces: &Vec<Piece>)
        ensures
            final(self)@ == with_pieces(old(self)@, pieces_view(pieces@)),
    {
        let mut i: usize = 0;
        assert(pieces_view(pieces@).take(0) =~= Seq::<PieceView>::empty());
        while i < pieces.len()
            invariant
                i <= pieces.len(),
                self@ == with_pieces(old(self)@, pieces_view(pieces@).take(i as int)),
            decreases pieces.len() - i,
        {
            let ghost before = pieces_view(pieces@).take(i as int);
            let ghost after = pieces_view(pieces@).take(i + 1);
            assert(after.drop_last() =~= before);
            assert(after.last() == pieces@[i as int]@);
            match &pieces[i] {
                Piece::Sql(t) => {
                    self.push(t);
                },
                Piece::Bind(v) => {
                    self.push_bind(v.copy());
                },
            }
            i = i + 1;
        }
        assert(pieces_view(pieces@).take(pieces@.len() as int) =~= pieces_view(pieces@));
    }

    /// A statement that selects from `base` the rows that meet every one
    /// of `conditions`.
    pub fn filtered(base: &str, conditions: &Predicates) -> (s: Statement)
        ensures
            s@ == filtered(base@, conditions@),
    {
        let mut s = Statement::new(base);
        let mut i: usize = 0;
        assert(conditions@.take(0) =~= Seq::<Seq<PieceView>>::empty());
        while i < conditions.list.len()
            invariant
                i <= conditions.list.len(),
                s@ == with_conditions(fixed(base@), conditions@.take(i as int)),
            decreases conditions.list.len() - i,
        {
            let ghost before = conditions@.take(i as int);
            let ghost after = conditions@.take(i + 1);
            assert(after.drop_last() =~= before);
            assert(after.last() == conditions.list@[i as int]@);
            if i == 0 {
                s.push(" WHERE ");
            } else {
                s.push(" AND ");
            }
            s.push_pieces(&conditions.list[i].pieces);
            i = i + 1;
        }
        assert(conditions@.take(conditions.list@.len() as int) =~= conditions@);
        s
    }

    /// The statement for one page of the rows that this one selects, in
    /// the given order.
    pub fn paged(self, order: Order, direction: SortDirection, pagination: &Pagination) -> (s:
        Statement)
        ensures
            s@ == paged(self@, order@, direction, *pagination),
    {
        let mut s = self;
        s.push(" ORDER BY ");
        let ghost start = s@;
        s.push(order.column);
        s.push(direction.keyword());
        match order.second {
            Some(second) => {
                s.push(", ");
                s.push(second);
                s.push(direction.keyword());
            },
            None => {},
        }
        assert(s@.sql =~= start.sql + order@.text(direction));
        assert(s@ == start.push_sql(order@.text(direction)));
        s.push(" LIMIT ");
        s.push_bind(SqlValue::BigInt(pagination.limit()));
        s.push(" OFFSET ");
        s.push_bind(SqlValue::BigInt(pagination.offset()));
        s
    }
}

/// The statement `sql` with `id` bound to its one placeholder.
pub fn by_id(sql: &str, id: i32) -> (s: Statement)
    ensures
        s@ == fixed(sql@).arg(SqlValueView::Int(id)),
{
    Statement::new(sql).bind(SqlValue::Int(id))
}

/// The statement `sql` with `id`, the page's limit and its offset bound to
/// its three placeholders.
pub fn page_by_id(sql: &str, id: i32, pagination: &Pagination) -> (s: Statement)
    ensures
        s@ == fixed(sql@).arg(SqlValueView::Int(id)).arg(
            SqlValueView::BigInt(pagination.spec_limit() as i64),
        ).arg(SqlValueView::BigInt(pagination.spec_offset() as i64)),
{
    Statement::new(sql).bind(SqlValue::Int(id)).bind(SqlValue::BigInt(pagination.limit())).bind(
        SqlValue::BigInt(pagination.offset()),
    )
}

/// The text that asks whether `table` holds a row with a given id.
pub open spec fn exists_sql(table: Seq<char>) -> Seq<char> {
    "SELECT EXISTS(SELECT 1 FROM "@ + table + " WHERE id = $1)"@
}

/// The statement that asks whether `table` holds the row `id`.
pub fn exists_by_id(table: &'static str, id: i32) -> (s: Statement)
    ensures
        s@ == fixed(exists_sql(table@)).arg(SqlValueView::Int(id)),
{
    let sql = join3("SELECT EXISTS(SELECT 1 FROM ", table, " WHERE id = $1)");
    Statement::new(sql.as_str()).bind(SqlValue::Int(id))
}

/// A filter field that is absent contributes no condition: the statement
/// is the one without the field.
pub proof fn lemma_absent_field_adds_nothing(
    base: Seq<char>,
    earlier: Seq<Seq<PieceView>>,
    before: Seq<char>,
    after: Seq<char>,
)
    ensures
        filtered(base, earlier + when_present(None, before, after)) == filtered(base, earlier),
        filtered(base, earlier + when_chosen(None)) == filtered(base, earlier),
{
    assert(earlier + when_present(None, before, after) =~= earlier);
    assert(earlier + when_chosen(None) =~= earlier);
}

/// A text field of a filter that is sent empty contributes what the field
/// contributes when it is not sent: no condition. The statement is the one
/// without the field.
pub proof fn lemma_empty_field_adds_nothing(
    base: Seq<char>,
    earlier: Seq<Seq<PieceView>>,
    before: Seq<char>,
    between: Seq<char>,
    after: Seq<char>,
)
    ensures
        pattern_filter(Some(Seq::empty())) == pattern_filter(None),
        text_filter(Some(Seq::empty())) == text_filter(None),
        filtered(base, earlier + when_present(pattern_filter(Some(Seq::empty())), before, after))
            == filtered(base, earlier),
        filtered(
            base,
            earlier + when_present_twice(pattern_filter(Some(Seq::empty())), before, between, after),
        ) == filtered(base, earlier),
        filtered(base, earlier + when_present(text_filter(Some(Seq::empty())), before, after))
            == filtered(base, earlier),
{
    assert(earlier + when_present(None, before, after) =~= earlier);
    assert(earlier + when_present_twice(None, before, between, after) =~= earlier);
}

/// The page of a listing and its count agree on what they select. The page
/// is the filtered statement with an order and a window after it: its text
/// starts with the text of the filtered statement, and it binds the values
/// of the filtered statement, then the limit, then the offset. A count that
/// wraps the filtered statement binds exactly the values of the filtered
/// statement, around the same text.
pub proof fn lemma_page_keeps_conditions(
    st: StatementView,
    order: OrderView,
    direction: SortDirection,
    pagination: Pagination,
    before: Seq<char>,
    after: Seq<char>,
)
    ensures
        paged(st, order, direction, pagination).binds == st.binds.push(
            SqlValueView::BigInt(pagination.spec_limit() as i64),
        ).push(SqlValueView::BigInt(pagination.spec_offset() as i64)),
        paged(st, order, direction, pagination).sql.len() >= st.sql.len(),
        paged(st, order, direction, pagination).sql.take(st.sql.len() as int) == st.sql,
        st.wrapped(before, after).binds == st.binds,
        st.wrapped(before, after).sql == before + st.sql + after,
{
    let page = paged(st, order, direction, pagination);
    assert(page.sql.take(st.sql.len() as int) =~= st.sql);
}

/// Whether two pieces differ at most in the value that they bind.
pub open spec fn same_shape(a: PieceView, b: PieceView) -> bool {
    match (a, b) {
        (PieceView::Sql(x), PieceView::Sql(y)) => x == y,
        (PieceView::Bind(_), PieceView::Bind(_)) => true,
        _ => false,
    }
}

/// Whether two lists of conditions differ at most in the values that they
/// bind.
pub open spec fn same_shapes(a: Seq<Seq<PieceView>>, b: Seq<Seq<PieceView>>) -> bool {
    &&& a.len() == b.len()
    &&& forall|i: int| 0 <= i < a.len() ==> (#[trigger] a[i]).len() == b[i].len()
    &&& forall|i: int, j: int|
        0 <= i < a.len() && 0 <= j < a[i].len() ==> same_shape(#[trigger] a[i][j], b[i][j])
}

/// No value reaches the text of a statement: two lists of conditions that
/// differ only in the values they bind give the same text, whatever those
/// values are, and bind equally many values.
pub proof fn lemma_text_ignores_values(
    base: Seq<char>,
    a: Seq<Seq<PieceView>>,
    b: Seq<Seq<PieceView>>,
)
    requires
        same_shapes(a, b),
    ensures
        filtered(base, a).sql == filtered(base, b).sql,
        filtered(base, a).binds.len() == filtered(base, b).binds.len(),
    decreases a.len(),
{
    if a.len() > 0 {
        let a0 = a.drop_last();
        let b0 = b.drop_last();
        assert(same_shapes(a0, b0)) by {
            assert forall|i: int| 0 <= i < a0.len() implies (#[trigger] a0[i]).len() == b0[i].len() by {
                assert(a0[i] == a[i] && b0[i] == b[i]);
            }
            assert forall|i: int, j: int| 0 <= i < a0.len() && 0 <= j < a0[i].len() implies same_shape(
                #[trigger] a0[i][j],
                b0[i][j],
            ) by {
                assert(a0[i] == a[i] && b0[i] == b[i]);
            }
        }
        lemma_text_ignores_values(base, a0, b0);
        let sa = with_conditions(fixed(base), a0).push_sql(lead(a.len() - 1));
        let sb = with_conditions(fixed(base), b0).push_sql(lead(b.len() - 1));
        let last = a.len() - 1;
        assert(a.last() == a[last] && b.last() == b[last]);
        assert forall|j: int| 0 <= j < a[last].len() implies same_shape(
            #[trigger] a[last][j],
            b[last][j],
        ) by {}
        lemma_pieces_ignore_values(sa, sb, a.last(), b.last());
    }
}

/// Pieces that differ only in the values they bind add the same text.
pub proof fn lemma_pieces_ignore_values(
    a: StatementView,
    b: StatementView,
    pieces_a: Seq<PieceView>,
    pieces_b: Seq<PieceView>,
)
    requires
        a.sql == b.sql,
        a.binds.len() == b.binds.len(),
        pieces_a.len() == pieces_b.len(),
        forall|j: int| 0 <= j < pieces_a.len() ==> same_shape(#[trigger] pieces_a[j], pieces_b[j]),
    ensures
        with_pieces(a, pieces_a).sql == with_pieces(b, pieces_b).sql,
        with_pieces(a, pieces_a).binds.len() == with_pieces(b, pieces_b).binds.len(),
    decreases pieces_a.len(),
{
    if pieces_a.len() > 0 {
        let last = pieces_a.len() - 1;
        assert(same_shape(pieces_a[last], pieces_b[last]));
        assert forall|j: int| 0 <= j < pieces_a.drop_last().len() implies same_shape(
            #[trigger] pieces_a.drop_last()[j],
            pieces_b.drop_last()[j],
        ) by {
            assert(pieces_a.drop_last()[j] == pieces_a[j]);
            assert(pieces_b.drop_last()[j] == pieces_b[j]);
        }
        lemma_pieces_ignore_values(a, b, pieces_a.drop_last(), pieces_b.drop_last());
    }
}

/// The bound values of a filtered statement do not depend on the text it
/// starts from: two statements built from the same conditions, such as the
/// count of a listing and its page, bind the same values in the same order.
pub proof fn lemma_same_conditions_same_binds(
    a: Seq<char>,
    b: Seq<char>,
    conditions: Seq<Seq<PieceView>>,
)
    ensures
        filtered(a, conditions).binds == filtered(b, conditions).binds,
    decreases conditions.len(),
{
    if conditions.len() > 0 {
        lemma_same_conditions_same_binds(a, b, conditions.drop_last());
        let ma = with_conditions(fixed(a), conditions.drop_last()).push_sql(
            lead(conditions.len() - 1),
        );
        let mb = with_conditions(fixed(b), conditions.drop_last()).push_sql(
            lead(conditions.len() - 1),
        );
        lemma_same_pieces_same_binds(ma, mb, conditions.last());
    }
}

/// Pieces add the same values to any two statements that bind the same
/// values.
pub proof fn lemma_same_pieces_same_binds(a: StatementView, b: StatementView, pieces: Seq<PieceView>)
    requires
        a.binds == b.binds,
    ensures
        with_pieces(a, pieces).binds == with_pieces(b, pieces).binds,
    decreases pieces.len(),
{
    if pieces.len() > 0 {
        lemma_same_pieces_same_binds(a, b, pieces.drop_last());
    }
}

} // verus!
