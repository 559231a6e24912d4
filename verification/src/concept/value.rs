//! The value model: the primitives that a query result can hold, and the
//! canonical text of each.

use vstd::prelude::*;
use crate::text::append_digits;
use crate::text::append_fraction;
use crate::text::append_signed;
use crate::text::digits;
use crate::text::fraction_digits;
use crate::text::signed_digits;
use crate::concept::temporal::Date;
use crate::concept::temporal::DateView;
use crate::concept::temporal::Datetime;
use crate::concept::temporal::DatetimeView;
use crate::concept::temporal::DatetimeTZ;
use crate::concept::temporal::DatetimeTZView;

verus! {

/// A 64-bit floating point number, held by its IEEE 754 bit pattern.
#[derive(Clone, Copy, Debug, PartialEq, Eq, Structural)]
pub struct Double {
    pub bits: u64,
}

/// A fixed-point decimal: a whole part and a fractional part counted in units
/// of `10^-19`, of which there are fewer than `10^19`. The number is the sum
/// of the two.
#[derive(Clone, Copy, Debug, PartialEq, Eq)]
pub struct Decimal {
    integer: i64,
    fractional: u64,
}

/// What a `Decimal` stands for.
pub struct DecimalView {
    pub integer: int,
    pub fractional: nat,
}

/// The number of decimal places that a `Decimal` keeps after the point.
pub const DECIMAL_PLACES: usize = 19;

/// The number of units of the fractional part that make one whole.
pub const FRACTIONAL_PART_DENOMINATOR: u64 = 10_000_000_000_000_000_000;

/// The canonical text of a decimal: the whole part with its sign, a point, and
/// the fractional part without the zeros at its end.
pub open spec fn decimal_text(decimal: DecimalView) -> Seq<char> {
    signed_digits(decimal.integer) + seq!['.'] + fraction_digits(
        decimal.fractional,
        DECIMAL_PLACES as nat,
    )
}

impl View for Decimal {
    type V = DecimalView;

    closed spec fn view(&self) -> DecimalView {
        DecimalView { integer: self.integer as int, fractional: self.fractional as nat }
    }
}

impl Decimal {
    #[verifier::type_invariant]
    spec fn well_formed(self) -> bool {
        self.fractional < FRACTIONAL_PART_DENOMINATOR
    }

    /// The decimal of the given parts, where the fractional part is less
    /// than one whole.
    pub fn new(integer: i64, fractional: u64) -> (decimal: Option<Decimal>)
        ensures
            decimal is Some == (fractional < FRACTIONAL_PART_DENOMINATOR),
            decimal matches Some(d) ==> d@ == (DecimalView {
                integer: integer as int,
                fractional: fractional as nat,
            }),
    {
        if fractional < FRACTIONAL_PART_DENOMINATOR {
            Some(Decimal { integer, fractional })
        } else {
            None
        }
    }

    pub fn integer(&self) -> (integer: i64)
        ensures
            integer == self@.integer,
    {
        self.integer
    }

    pub fn fractional(&self) -> (fractional: u64)
        ensures
            fractional == self@.fractional,
            fractional < FRACTIONAL_PART_DENOMINATOR,
    {
        proof {
            use_type_invariant(self);
        }
        self.fractional
    }

    /// The canonical text of this decimal.
    pub fn to_text(&self) -> (text: String)
        ensures
            text@ == decimal_text(self@),
    {
        let mut text = String::new();
        append_signed(&mut text, self.integer);
        proof {
            reveal_strlit(".");
        }
        text.append(".");
        append_fraction(&mut text, self.fractional, DECIMAL_PLACES);
        assert(text@ =~= decimal_text(self@));
        text
    }
}

/// A span of time in months, days and nanoseconds, none of which converts into
/// another.
#[derive(Clone, Copy, Debug, PartialEq, Eq, Structural)]
pub struct Duration {
    pub months: u32,
    pub days: u32,
    pub nanos: u64,
}

/// A count followed by its designator, or nothing where the count is zero.
pub open spec fn duration_part(count: nat, designator: char) -> Seq<char> {
    if count == 0 {
        Seq::empty()
    } else {
        digits(count, 1).push(designator)
    }
}

/// The seconds of a duration's time part: whole seconds, then a point and the
/// fraction where there is one, then `S`; nothing where both are zero.
pub open spec fn duration_seconds_part(seconds: nat, nanos: nat) -> Seq<char> {
    if seconds == 0 && nanos == 0 {
        Seq::empty()
    } else if nanos == 0 {
        digits(seconds, 1).push('S')
    } else {
        (digits(seconds, 1) + seq!['.'] + fraction_digits(nanos, 9)).push('S')
    }
}

/// The time part of a duration: `T` and the hours, minutes and seconds that are
/// not zero; nothing where the duration holds no nanoseconds.
pub open spec fn duration_time_part(nanos: nat) -> Seq<char> {
    let seconds = nanos / 1_000_000_000;
    if nanos == 0 {
        Seq::empty()
    } else {
        seq!['T'] + duration_part(seconds / 3600, 'H') + duration_part(seconds % 3600 / 60, 'M')
            + duration_seconds_part(seconds % 60, nanos % 1_000_000_000)
    }
}

/// The canonical text of a duration, in the ISO 8601 form
/// `P[n]Y[n]M[n]DT[n]H[n]M[n]S`, with the parts that are zero left out and
/// `PT0S` for the empty duration.
pub open spec fn duration_text(duration: Duration) -> Seq<char> {
    if duration.months == 0 && duration.days == 0 && duration.nanos == 0 {
        seq!['P', 'T', '0', 'S']
    } else {
        seq!['P'] + duration_part((duration.months / 12) as nat, 'Y') + duration_part(
            (duration.months % 12) as nat,
            'M',
        ) + duration_part(duration.days as nat, 'D') + duration_time_part(duration.nanos as nat)
    }
}

fn append_duration_part(out: &mut String, count: u64, designator: &str)
    requires
        designator@.len() == 1,
    ensures
        final(out)@ == old(out)@ + duration_part(count as nat, designator@[0]),
{
    if count != 0 {
        append_digits(out, count, 1);
        out.append(designator);
        assert(out@ =~= old(out)@ + duration_part(count as nat, designator@[0]));
    } else {
        assert(out@ =~= old(out)@ + duration_part(count as nat, designator@[0]));
    }
}

impl Duration {
    pub fn new(months: u32, days: u32, nanos: u64) -> (duration: Duration)
        ensures
            duration.months == months,
            duration.days == days,
            duration.nanos == nanos,
    {
        Duration { months, days, nanos }
    }

    /// The canonical text of this duration.
    pub fn to_text(&self) -> (text: String)
        ensures
            text@ == duration_text(*self),
    {
        proof {
            reveal_strlit("PT0S");
            reveal_strlit("P");
            reveal_strlit("Y");
            reveal_strlit("M");
            reveal_strlit("D");
            reveal_strlit("T");
            reveal_strlit("H");
            reveal_strlit("S");
            reveal_strlit(".");
        }
        if self.months == 0 && self.days == 0 && self.nanos == 0 {
            let text = String::from_str("PT0S");
            assert(text@ =~= duration_text(*self));
            return text;
        }
        let mut text = String::from_str("P");
        append_duration_part(&mut text, (self.months / 12) as u64, "Y");
        append_duration_part(&mut text, (self.months % 12) as u64, "M");
        append_duration_part(&mut text, self.days as u64, "D");
        let ghost date_part = text@;
        if self.nanos != 0 {
            let seconds: u64 = self.nanos / 1_000_000_000;
            let fraction: u64 = self.nanos % 1_000_000_000;
            text.append("T");
            append_duration_part(&mut text, seconds / 3600, "H");
            append_duration_part(&mut text, seconds % 3600 / 60, "M");
            let ghost before = text@;
            if seconds % 60 != 0 || fraction != 0 {
                append_digits(&mut text, seconds % 60, 1);
                if fraction != 0 {
                    text.append(".");
                    append_fraction(&mut text, fraction, 9);
                }
                text.append("S");
            }
            assert(text@ =~= before + duration_seconds_part(
                (seconds % 60) as nat,
                fraction as nat,
            ));
            assert(text@ =~= date_part + duration_time_part(self.nanos as nat));
        } else {
            assert(text@ =~= date_part + duration_time_part(self.nanos as nat));
        }
        assert(text@ =~= duration_text(*self));
        text
    }
}

/// The type of a value.
#[derive(Debug, PartialEq, Eq)]
pub enum ValueType {
    Boolean,
    Long,
    Double,
    Decimal,
    String,
    Date,
    Datetime,
    DatetimeTZ,
    Duration,
    /// A structure that a user has defined, by its name.
    Struct(String),
}

/// What a `ValueType` stands for.
pub enum ValueTypeView {
    Boolean,
    Long,
    Double,
    Decimal,
    String,
    Date,
    Datetime,
    DatetimeTZ,
    Duration,
    Struct(Seq<char>),
}

impl View for ValueType {
    type V = ValueTypeView;

    open spec fn view(&self) -> ValueTypeView {
        match self {
            ValueType::Boolean => ValueTypeView::Boolean,
            ValueType::Long => ValueTypeView::Long,
            ValueType::Double => ValueTypeView::Double,
            ValueType::Decimal => ValueTypeView::Decimal,
            ValueType::String => ValueTypeView::String,
            ValueType::Date => ValueTypeView::Date,
            ValueType::Datetime => ValueTypeView::Datetime,
            ValueType::DatetimeTZ => ValueTypeView::DatetimeTZ,
            ValueType::Duration => ValueTypeView::Duration,
            ValueType::Struct(name) => ValueTypeView::Struct(name@),
        }
    }
}

impl Clone for ValueType {
    fn clone(&self) -> (copy: ValueType)
        ensures
            copy@ == self@,
    {
        match self {
            ValueType::Boolean => ValueType::Boolean,
            ValueType::Long => ValueType::Long,
            ValueType::Double => ValueType::Double,
            ValueType::Decimal => ValueType::Decimal,
            ValueType::String => ValueType::String,
            ValueType::Date => ValueType::Date,
            ValueType::Datetime => ValueType::Datetime,
            ValueType::DatetimeTZ => ValueType::DatetimeTZ,
            ValueType::Duration => ValueType::Duration,
            ValueType::Struct(name) => ValueType::Struct(name.clone()),
        }
    }
}

/// A value of a query result.
#[derive(Debug, PartialEq)]
pub enum Value {
    Boolean(bool),
    Long(i64),
    Double(Double),
    Decimal(Decimal),
    String(String),
    Date(Date),
    Datetime(Datetime),
    DatetimeTZ(DatetimeTZ),
    Duration(Duration),
    /// A structure and the name of its type.
    Struct(Struct, String),
}

/// A structure: named fields, each set to a value or left unset. Where a name
/// occurs twice, the later field counts.
#[derive(Debug, PartialEq)]
pub struct Struct {
    pub fields: Vec<(String, Option<Value>)>,
}

/// What a `Value` stands for.
pub enum ValueView {
    Boolean(bool),
    Long(i64),
    Double(Double),
    Decimal(DecimalView),
    String(Seq<char>),
    Date(DateView),
    Datetime(DatetimeView),
    DatetimeTZ(DatetimeTZView),
    Duration(Duration),
    Struct(Map<Seq<char>, Option<ValueView>>, Seq<char>),
}

/// What an optional value stands for.
pub open spec fn optional_value_view(value: Option<Value>) -> Option<ValueView>
    decreases value,
{
    match value {
        Some(value) => Some(value.view()),
        None => None,
    }
}

/// What the first `count` fields of a structure stand for.
pub open spec fn fields_view(fields: Vec<(String, Option<Value>)>, count: nat) -> Map<
    Seq<char>,
    Option<ValueView>,
>
    decreases fields, count,
{
    if count == 0 || count > fields.len() {
        Map::empty()
    } else {
        fields_view(fields, (count - 1) as nat).insert(
            fields[count - 1].0@,
            optional_value_view(fields[count - 1].1),
        )
    }
}

impl View for Struct {
    type V = Map<Seq<char>, Option<ValueView>>;

    open spec fn view(&self) -> Map<Seq<char>, Option<ValueView>>
        decreases self,
    {
        fields_view(self.fields, self.fields.len() as nat)
    }
}

impl View for Value {
    type V = ValueView;

    open spec fn view(&self) -> ValueView
        decreases self,
    {
        match self {
            Value::Boolean(flag) => ValueView::Boolean(*flag),
            Value::Long(number) => ValueView::Long(*number),
            Value::Double(double) => ValueView::Double(*double),
            Value::Decimal(decimal) => ValueView::Decimal(decimal@),
            Value::String(text) => ValueView::String(text@),
            Value::Date(date) => ValueView::Date(date@),
            Value::Datetime(datetime) => ValueView::Datetime(datetime@),
            Value::DatetimeTZ(datetime) => ValueView::DatetimeTZ(datetime@),
            Value::Duration(duration) => ValueView::Duration(*duration),
            Value::Struct(fields, name) => ValueView::Struct(fields.view(), name@),
        }
    }
}

/// The type of a value.
pub open spec fn value_type_of(value: ValueView) -> ValueTypeView {
    match value {
        ValueView::Boolean(_) => ValueTypeView::Boolean,
        ValueView::Long(_) => ValueTypeView::Long,
        ValueView::Double(_) => ValueTypeView::Double,
        ValueView::Decimal(_) => ValueTypeView::Decimal,
        ValueView::String(_) => ValueTypeView::String,
        ValueView::Date(_) => ValueTypeView::Date,
        ValueView::Datetime(_) => ValueTypeView::Datetime,
        ValueView::DatetimeTZ(_) => ValueTypeView::DatetimeTZ,
        ValueView::Duration(_) => ValueTypeView::Duration,
        ValueView::Struct(_, name) => ValueTypeView::Struct(name),
    }
}

impl Value {
    /// The type of this value.
    pub fn get_type(&self) -> (value_type: ValueType)
        ensures
            value_type@ == value_type_of(self@),
    {
        match self {
            Value::Boolean(_) => ValueType::Boolean,
            Value::Long(_) => ValueType::Long,
            Value::Double(_) => ValueType::Double,
            Value::Decimal(_) => ValueType::Decimal,
            Value::String(_) => ValueType::String,
            Value::Date(_) => ValueType::Date,
            Value::Datetime(_) => ValueType::Datetime,
            Value::DatetimeTZ(_) => ValueType::DatetimeTZ,
            Value::Duration(_) => ValueType::Duration,
            Value::Struct(_, name) => ValueType::Struct(name.clone()),
        }
    }
}

proof fn lemma_fields_view_agree(
    left: Vec<(String, Option<Value>)>,
    right: Vec<(String, Option<Value>)>,
    count: nat,
)
    requires
        count <= left.len(),
        count <= right.len(),
        forall|i: int|
            0 <= i < count ==> (#[trigger] left[i]).0@ == right[i].0@ && optional_value_view(
                left[i].1,
            ) == optional_value_view(right[i].1),
    ensures
        fields_view(left, count) == fields_view(right, count),
    decreases count,
{
    if count > 0 {
        lemma_fields_view_agree(left, right, (count - 1) as nat);
        assert(left[count - 1].0@ == right[count - 1].0@);
    }
}

impl Clone for Struct {
    fn clone(&self) -> (copy: Struct)
        ensures
            copy@ == self@,
        decreases self,
    {
        let mut copies: Vec<(String, Option<Value>)> = Vec::new();
        let mut at: usize = 0;
        while at < self.fields.len()
            invariant
                at <= self.fields.len(),
                copies.len() == at,
                forall|i: int|
                    0 <= i < at ==> (#[trigger] copies[i]).0@ == self.fields[i].0@
                        && optional_value_view(copies[i].1) == optional_value_view(
                        self.fields[i].1,
                    ),
            decreases self.fields.len() - at,
        {
            let field = &self.fields[at];
            let value = match &field.1 {
                Some(value) => Some(value.clone()),
                None => None,
            };
            copies.push((field.0.clone(), value));
            at = at + 1;
        }
        proof {
            lemma_fields_view_agree(copies, self.fields, at as nat);
        }
        Struct { fields: copies }
    }
}

impl Clone for Value {
    fn clone(&self) -> (copy: Value)
        ensures
            copy@ == self@,
        decreases self,
    {
        match self {
            Value::Boolean(flag) => Value::Boolean(*flag),
            Value::Long(number) => Value::Long(*number),
            Value::Double(double) => Value::Double(*double),
            Value::Decimal(decimal) => Value::Decimal(*decimal),
            Value::String(text) => Value::String(text.clone()),
            Value::Date(date) => Value::Date(*date),
            Value::Datetime(datetime) => Value::Datetime(*datetime),
            Value::DatetimeTZ(datetime) => Value::DatetimeTZ(datetime.clone()),
            Value::Duration(duration) => Value::Duration(*duration),
            Value::Struct(fields, name) => Value::Struct(fields.clone(), name.clone()),
        }
    }
}

} // verus!
