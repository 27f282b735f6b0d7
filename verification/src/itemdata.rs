use vstd::prelude::*;
use crate::item::{RefBiologicalType, RefItemRarity, RefItemData};
use crate::objects::ObjectType;

verus! {

/// Why a static-data row was refused.
#[derive(Copy, Clone, Eq, PartialEq, Structural, Debug)]
pub enum ParseError {
    MissingColumn(usize),
    NotANumber,
    UnknownVariant,
}

pub open spec fn spec_is_digit(b: u8) -> bool {
    48 <= b <= 57
}

pub open spec fn spec_all_digits(s: Seq<u8>) -> bool {
    forall|i: int| 0 <= i < s.len() ==> spec_is_digit(#[trigger] s[i])
}

/// The value of a digit string read in base ten.
pub open spec fn spec_decimal_value(s: Seq<u8>) -> int
    decreases s.len(),
{
    if s.len() == 0 {
        0
    } else {
        spec_decimal_value(s.drop_last()) * 10 + (s.last() - 48)
    }
}

/// A digit string's value only grows as digits are appended.
proof fn lemma_decimal_prefix_le(s: Seq<u8>, i: int)
    requires
        spec_all_digits(s),
        0 <= i <= s.len(),
    ensures
        spec_decimal_value(s.take(i)) <= spec_decimal_value(s),
    decreases s.len() - i,
{
    if i == s.len() {
        assert(s.take(i) =~= s);
    } else {
        lemma_decimal_prefix_le(s, i + 1);
        let t = s.take(i + 1);
        assert(t.drop_last() =~= s.take(i));
        assert(spec_decimal_value(s.take(i)) * 10 + (t.last() - 48) == spec_decimal_value(t));
        assert(spec_decimal_value(s.take(i)) >= 0) by {
            lemma_decimal_nonneg(s.take(i));
        }
    }
}

proof fn lemma_decimal_nonneg(s: Seq<u8>)
    ensures
        spec_all_digits(s) ==> spec_decimal_value(s) >= 0,
    decreases s.len(),
{
    if s.len() == 0 {
    } else {
        lemma_decimal_nonneg(s.drop_last());
        if spec_all_digits(s) {
            assert(spec_all_digits(s.drop_last())) by {
                assert(forall|i: int|
                    0 <= i < s.drop_last().len() ==> s.drop_last()[i] == s[i]);
            }
        }
    }
}

/// Read an unsigned decimal number; refused when empty, when any byte is no
/// digit, or when the value does not fit 64 bits.
pub fn parse_u64(s: &[u8]) -> (r: Result<u64, ParseError>)
    ensures
        match r {
            Ok(v) => s@.len() > 0 && spec_all_digits(s@) && v == spec_decimal_value(s@),
            Err(_) => s@.len() == 0 || !spec_all_digits(s@) || spec_decimal_value(s@) > u64::MAX,
        },
{
    if s.len() == 0 {
        return Err(ParseError::NotANumber);
    }
    let mut value: u64 = 0;
    let mut i: usize = 0;
    proof {
        assert(s@.take(0) =~= Seq::<u8>::empty());
    }
    while i < s.len()
        invariant
            i <= s@.len(),
            spec_all_digits(s@.take(i as int)),
            value == spec_decimal_value(s@.take(i as int)),
        decreases s@.len() - i,
    {
        let b = s[i];
        if b < 48 || b > 57 {
            return Err(ParseError::NotANumber);
        }
        let digit = (b - 48) as u64;
        if value > (u64::MAX - digit) / 10 {
            proof {
                if spec_all_digits(s@) {
                    assert(s@.take(i as int + 1).drop_last() =~= s@.take(i as int));
                    assert(s@.take(i as int + 1).last() == s@[i as int]);
                    assert(value * 10 + digit > u64::MAX) by (nonlinear_arith)
                        requires
                            value > (0xffffffffffffffffu64 - digit) / 10,
                            digit < 10,
                    ;
                    lemma_decimal_prefix_le(s@, i as int + 1);
                }
            }
            return Err(ParseError::NotANumber);
        }
        proof {
            assert(s@.take(i as int + 1).drop_last() =~= s@.take(i as int));
            assert(s@.take(i as int + 1).last() == s@[i as int]);
        }
        value = value * 10 + digit;
        i = i + 1;
    }
    proof {
        assert(s@.take(i as int) =~= s@);
    }
    Ok(value)
}

/// Read an unsigned decimal number that must fit 32 bits.
pub fn parse_u32(s: &[u8]) -> (r: Result<u32, ParseError>)
    ensures
        match r {
            Ok(v) => s@.len() > 0 && spec_all_digits(s@) && v == spec_decimal_value(s@),
            Err(_) => s@.len() == 0 || !spec_all_digits(s@) || spec_decimal_value(s@) > u32::MAX,
        },
{
    match parse_u64(s) {
        Ok(v) => {
            if v > 0xffffffff {
                Err(ParseError::NotANumber)
            } else {
                Ok(v as u32)
            }
        },
        Err(e) => Err(e),
    }
}

/// Read an unsigned decimal number that must fit 16 bits.
pub fn parse_u16(s: &[u8]) -> (r: Result<u16, ParseError>)
    ensures
        match r {
            Ok(v) => s@.len() > 0 && spec_all_digits(s@) && v == spec_decimal_value(s@),
            Err(_) => s@.len() == 0 || !spec_all_digits(s@) || spec_decimal_value(s@) > u16::MAX,
        },
{
    match parse_u64(s) {
        Ok(v) => {
            if v > 0xffff {
                Err(ParseError::NotANumber)
            } else {
                Ok(v as u16)
            }
        },
        Err(e) => Err(e),
    }
}

/// Read an unsigned decimal number that must fit 8 bits.
pub fn parse_u8(s: &[u8]) -> (r: Result<u8, ParseError>)
    ensures
        match r {
            Ok(v) => s@.len() > 0 && spec_all_digits(s@) && v == spec_decimal_value(s@),
            Err(_) => s@.len() == 0 || !spec_all_digits(s@) || spec_decimal_value(s@) > u8::MAX,
        },
{
    match parse_u64(s) {
        Ok(v) => {
            if v > 0xff {
                Err(ParseError::NotANumber)
            } else {
                Ok(v as u8)
            }
        },
        Err(e) => Err(e),
    }
}

/// The value of an optionally minus-signed digit string.
pub open spec fn spec_signed_value(s: Seq<u8>) -> int {
    if s.len() > 0 && s[0] == 45 {
        -spec_decimal_value(s.drop_first())
    } else {
        spec_decimal_value(s)
    }
}

/// Read a signed decimal number that must fit 64 bits.
pub fn parse_i64(s: &[u8]) -> (r: Result<i64, ParseError>)
    ensures
        r matches Ok(v) ==> v == spec_signed_value(s@),
{
    if s.len() > 0 && s[0] == 45 {
        let rest = vstd::slice::slice_subrange(s, 1, s.len());
        proof {
            assert(rest@ =~= s@.drop_first());
        }
        match parse_u64(rest) {
            Ok(v) => {
                if v > 0x8000000000000000 {
                    Err(ParseError::NotANumber)
                } else if v == 0x8000000000000000 {
                    Ok(i64::MIN)
                } else {
                    Ok(-(v as i64))
                }
            },
            Err(e) => Err(e),
        }
    } else {
        match parse_u64(s) {
            Ok(v) => {
                if v > 0x7fffffffffffffff {
                    Err(ParseError::NotANumber)
                } else {
                    Ok(v as i64)
                }
            },
            Err(e) => Err(e),
        }
    }
}

/// Columns joined back with tab separators; with tab-free columns this
/// inverts the split, so it pins the split down exactly.
pub open spec fn spec_join(cols: Seq<Seq<u8>>) -> Seq<u8>
    decreases cols.len(),
{
    if cols.len() == 0 {
        Seq::<u8>::empty()
    } else if cols.len() == 1 {
        cols[0]
    } else {
        cols[0] + seq![9u8] + spec_join(cols.drop_first())
    }
}

/// Appending a new column extends the join by a separator and the column.
proof fn lemma_join_push(cols: Seq<Seq<u8>>, c: Seq<u8>)
    requires
        cols.len() >= 1,
    ensures
        spec_join(cols.push(c)) =~= spec_join(cols) + seq![9u8] + c,
    decreases cols.len(),
{
    if cols.len() == 1 {
        assert(cols.push(c).drop_first() =~= seq![c]);
        assert(cols.push(c)[0] == cols[0]);
        assert(spec_join(cols.push(c).drop_first()) == c);
        assert(spec_join(cols.push(c)) =~= cols[0] + seq![9u8] + c);
    } else {
        lemma_join_push(cols.drop_first(), c);
        assert(cols.push(c).drop_first() =~= cols.drop_first().push(c));
        assert(cols.push(c)[0] == cols[0]);
        assert(spec_join(cols.push(c)) =~= cols[0] + seq![9u8] + spec_join(
            cols.drop_first().push(c),
        ));
        assert(spec_join(cols) =~= cols[0] + seq![9u8] + spec_join(cols.drop_first()));
    }
}

/// Appending a byte to the last column appends it to the join.
proof fn lemma_join_last_push(cols: Seq<Seq<u8>>, c: Seq<u8>, b: u8)
    ensures
        spec_join(cols.push(c.push(b))) =~= spec_join(cols.push(c)).push(b),
    decreases cols.len(),
{
    if cols.len() == 0 {
        assert(spec_join(cols.push(c.push(b))) =~= c.push(b));
        assert(spec_join(cols.push(c)) =~= c);
    } else {
        lemma_join_last_push(cols.drop_first(), c, b);
        assert(cols.push(c.push(b)).drop_first() =~= cols.drop_first().push(c.push(b)));
        assert(cols.push(c).drop_first() =~= cols.drop_first().push(c));
        assert(cols.push(c.push(b))[0] == cols[0]);
        assert(cols.push(c)[0] == cols[0]);
    }
}

/// Split a row on tab bytes. No column holds a tab, and joining the columns
/// back with tabs restores the row, which pins the split down exactly.
pub fn split_columns(s: &[u8]) -> (r: Vec<Vec<u8>>)
    ensures
        r@.len() >= 1,
        forall|k: int, j: int|
            0 <= k < r@.len() && 0 <= j < r@[k]@.len() ==> r@[k]@[j] != 9,
        spec_join(r@.map_values(|c: Vec<u8>| c@)) =~= s@,
{
    let mut r: Vec<Vec<u8>> = Vec::new();
    let mut current: Vec<u8> = Vec::new();
    let mut i: usize = 0;
    proof {
        assert(s@.take(0) =~= Seq::<u8>::empty());
        assert(r@.map_values(|c: Vec<u8>| c@).push(current@) =~= seq![current@]);
    }
    while i < s.len()
        invariant
            i <= s@.len(),
            forall|j: int| 0 <= j < current@.len() ==> current@[j] != 9,
            forall|k: int, j: int|
                0 <= k < r@.len() && 0 <= j < r@[k]@.len() ==> r@[k]@[j] != 9,
            spec_join(r@.map_values(|c: Vec<u8>| c@).push(current@)) =~= s@.take(i as int),
        decreases s@.len() - i,
    {
        let b = s[i];
        let ghost cols = r@.map_values(|c: Vec<u8>| c@);
        let ghost cur = current@;
        if b == 9 {
            proof {
                lemma_join_push(cols.push(cur), Seq::<u8>::empty());
                assert(s@.take(i as int + 1) =~= s@.take(i as int).push(9u8));
                assert(cols.push(cur).push(Seq::<u8>::empty()) =~= r@.push(current).map_values(
                    |c: Vec<u8>| c@,
                ).push(Seq::<u8>::empty()));
            }
            r.push(current);
            current = Vec::new();
        } else {
            proof {
                lemma_join_last_push(cols, cur, b);
                assert(s@.take(i as int + 1) =~= s@.take(i as int).push(b));
            }
            current.push(b);
        }
        i = i + 1;
    }
    proof {
        assert(s@.take(i as int) =~= s@);
        assert(r@.map_values(|c: Vec<u8>| c@).push(current@) =~= r@.push(current).map_values(
            |c: Vec<u8>| c@,
        ));
    }
    r.push(current);
    r
}

impl RefItemRarity {
    /// Decode a rarity from its stored numeric grade.
    pub fn try_from_grade(value: u8) -> (r: Result<RefItemRarity, ParseError>)
        ensures
            match r {
                Ok(v) => match v {
                    RefItemRarity::General => value == 0,
                    RefItemRarity::Blue => value == 1,
                    RefItemRarity::Seal => value == 2,
                    RefItemRarity::SetItem => value == 3,
                    RefItemRarity::Roc => value == 6,
                    RefItemRarity::Legend => value == 8,
                },
                Err(_) => value != 0 && value != 1 && value != 2 && value != 3 && value != 6
                    && value != 8,
            },
    {
        match value {
            0 => Ok(RefItemRarity::General),
            1 => Ok(RefItemRarity::Blue),
            2 => Ok(RefItemRarity::Seal),
            3 => Ok(RefItemRarity::SetItem),
            6 => Ok(RefItemRarity::Roc),
            8 => Ok(RefItemRarity::Legend),
            _ => Err(ParseError::UnknownVariant),
        }
    }
}

impl RefBiologicalType {
    /// Decode a wearer kind from its stored numeric value.
    pub fn try_from_value(value: u8) -> (r: Result<RefBiologicalType, ParseError>)
        ensures
            match r {
                Ok(v) => match v {
                    RefBiologicalType::Female => value == 0,
                    RefBiologicalType::Male => value == 1,
                    RefBiologicalType::Both => value == 2,
                    RefBiologicalType::Pet1 => value == 3,
                    RefBiologicalType::Pet2 => value == 4,
                    RefBiologicalType::Pet3 => value == 5,
                },
                Err(_) => value > 5,
            },
    {
        match value {
            0 => Ok(RefBiologicalType::Female),
            1 => Ok(RefBiologicalType::Male),
            2 => Ok(RefBiologicalType::Both),
            3 => Ok(RefBiologicalType::Pet1),
            4 => Ok(RefBiologicalType::Pet2),
            5 => Ok(RefBiologicalType::Pet3),
            _ => Err(ParseError::UnknownVariant),
        }
    }

    /// Decode a wearer kind from its decimal text form; it parses if and
    /// only if the text is a number naming one of the known kinds.
    pub fn from_str(s: &[u8]) -> (r: Result<RefBiologicalType, ParseError>)
        ensures
            r is Ok <==> (s@.len() > 0 && spec_all_digits(s@) && spec_decimal_value(s@) <= 5),
            r matches Ok(v) ==> spec_all_digits(s@) && spec_decimal_value(s@) <= u8::MAX && match v {
                RefBiologicalType::Female => spec_decimal_value(s@) == 0,
                RefBiologicalType::Male => spec_decimal_value(s@) == 1,
                RefBiologicalType::Both => spec_decimal_value(s@) == 2,
                RefBiologicalType::Pet1 => spec_decimal_value(s@) == 3,
                RefBiologicalType::Pet2 => spec_decimal_value(s@) == 4,
                RefBiologicalType::Pet3 => spec_decimal_value(s@) == 5,
            },
    {
        match parse_u8(s) {
            Ok(v) => RefBiologicalType::try_from_value(v),
            Err(e) => Err(e),
        }
    }
}

/// The columns of an item row that the core reads, by index.
pub const COLUMN_PRICE: usize = 26;

pub const COLUMN_REQUIRED_LEVEL: usize = 33;

pub const COLUMN_STACK_SIZE: usize = 57;

pub const COLUMN_BIOLOGICAL_TYPE: usize = 58;

pub const COLUMN_RANGE: usize = 94;

pub const COLUMN_PHY_ATTACK_LOWER: usize = 95;

pub const COLUMN_PHY_ATTACK_UPPER: usize = 97;

pub const COLUMN_MAG_ATTACK_LOWER: usize = 100;

pub const COLUMN_MAG_ATTACK_UPPER: usize = 102;

pub const COLUMN_PHY_REINFORCE_LOWER: usize = 105;

pub const COLUMN_PHY_REINFORCE_UPPER: usize = 107;

pub const COLUMN_MAG_REINFORCE_LOWER: usize = 109;

pub const COLUMN_MAG_REINFORCE_UPPER: usize = 111;

pub const COLUMN_ATTACK_RATE: usize = 113;

pub const COLUMN_CRITICAL: usize = 116;

pub const COLUMN_REF_ID: usize = 1;

/// A column reads as an unsigned number within the given bound.
pub open spec fn spec_number_column_ok(column: Seq<u8>, max: int) -> bool {
    &&& column.len() > 0
    &&& spec_all_digits(column)
    &&& spec_decimal_value(column) <= max
}

/// Every column an item row needs is present and reads as a number of its
/// field's width, the wearer kind within its known values.
pub open spec fn spec_item_row_ok(columns: Seq<Seq<u8>>) -> bool {
    &&& columns.len() > COLUMN_CRITICAL
    &&& spec_number_column_ok(columns[COLUMN_REF_ID as int], u32::MAX as int)
    &&& spec_number_column_ok(columns[COLUMN_PRICE as int], u64::MAX as int)
    &&& spec_number_column_ok(columns[COLUMN_REQUIRED_LEVEL as int], u8::MAX as int)
    &&& spec_number_column_ok(columns[COLUMN_STACK_SIZE as int], u16::MAX as int)
    &&& spec_number_column_ok(columns[COLUMN_BIOLOGICAL_TYPE as int], 5)
    &&& spec_number_column_ok(columns[COLUMN_RANGE as int], u16::MAX as int)
    &&& spec_number_column_ok(columns[COLUMN_PHY_ATTACK_LOWER as int], u32::MAX as int)
    &&& spec_number_column_ok(columns[COLUMN_PHY_ATTACK_UPPER as int], u32::MAX as int)
    &&& spec_number_column_ok(columns[COLUMN_MAG_ATTACK_LOWER as int], u32::MAX as int)
    &&& spec_number_column_ok(columns[COLUMN_MAG_ATTACK_UPPER as int], u32::MAX as int)
    &&& spec_number_column_ok(columns[COLUMN_PHY_REINFORCE_LOWER as int], u32::MAX as int)
    &&& spec_number_column_ok(columns[COLUMN_PHY_REINFORCE_UPPER as int], u32::MAX as int)
    &&& spec_number_column_ok(columns[COLUMN_MAG_REINFORCE_LOWER as int], u32::MAX as int)
    &&& spec_number_column_ok(columns[COLUMN_MAG_REINFORCE_UPPER as int], u32::MAX as int)
    &&& spec_number_column_ok(columns[COLUMN_ATTACK_RATE as int], u32::MAX as int)
    &&& spec_number_column_ok(columns[COLUMN_CRITICAL as int], u32::MAX as int)
}

/// Decode one item row from its split columns: it parses if and only if
/// every needed column is present and numeric. The reinforce columns are
/// stored a hundred times their value and are kept that way; a required
/// level or range of zero means none. The object family is decoded from the
/// entry's type id by the static-data service and handed in.
pub fn parse_item_row(columns: &Vec<Vec<u8>>, object_type: ObjectType) -> (r: Result<
    RefItemData,
    ParseError,
>)
    ensures
        r is Ok <==> spec_item_row_ok(columns@.map_values(|c: Vec<u8>| c@)),
        r matches Ok(d) ==> {
            &&& columns@.len() > COLUMN_CRITICAL
            &&& d.object_type == object_type
            &&& d.ref_id == spec_decimal_value(columns@[COLUMN_REF_ID as int]@)
            &&& d.price == spec_decimal_value(columns@[COLUMN_PRICE as int]@)
            &&& d.max_stack_size == spec_decimal_value(columns@[COLUMN_STACK_SIZE as int]@)
            &&& d.range == spec_decimal_value(columns@[COLUMN_RANGE as int]@)
            &&& d.required_level == (if spec_decimal_value(
                columns@[COLUMN_REQUIRED_LEVEL as int]@,
            ) == 0 {
                None
            } else {
                Some(spec_decimal_value(columns@[COLUMN_REQUIRED_LEVEL as int]@) as u8)
            })
            &&& d.physical_attack_power_lower == spec_decimal_value(
                columns@[COLUMN_PHY_ATTACK_LOWER as int]@,
            )
            &&& d.physical_attack_power_upper == spec_decimal_value(
                columns@[COLUMN_PHY_ATTACK_UPPER as int]@,
            )
            &&& d.magical_attack_power_lower == spec_decimal_value(
                columns@[COLUMN_MAG_ATTACK_LOWER as int]@,
            )
            &&& d.magical_attack_power_upper == spec_decimal_value(
                columns@[COLUMN_MAG_ATTACK_UPPER as int]@,
            )
            &&& d.physical_reinforce_lower == spec_decimal_value(
                columns@[COLUMN_PHY_REINFORCE_LOWER as int]@,
            )
            &&& d.physical_reinforce_upper == spec_decimal_value(
                columns@[COLUMN_PHY_REINFORCE_UPPER as int]@,
            )
            &&& d.magical_reinforce_lower == spec_decimal_value(
                columns@[COLUMN_MAG_REINFORCE_LOWER as int]@,
            )
            &&& d.magical_reinforce_upper == spec_decimal_value(
                columns@[COLUMN_MAG_REINFORCE_UPPER as int]@,
            )
            &&& d.attack_rate == spec_decimal_value(columns@[COLUMN_ATTACK_RATE as int]@)
            &&& d.critical == spec_decimal_value(columns@[COLUMN_CRITICAL as int]@)
        },
{
    let ref_id = parse_u32(column(columns, COLUMN_REF_ID)?)?;
    let price = parse_u64(column(columns, COLUMN_PRICE)?)?;
    let required_level_raw = parse_u8(column(columns, COLUMN_REQUIRED_LEVEL)?)?;
    let max_stack_size = parse_u16(column(columns, COLUMN_STACK_SIZE)?)?;
    let biological_type = RefBiologicalType::from_str(
        column(columns, COLUMN_BIOLOGICAL_TYPE)?.as_slice(),
    )?;
    let range = parse_u16(column(columns, COLUMN_RANGE)?)?;
    let physical_attack_power_lower = parse_u32(column(columns, COLUMN_PHY_ATTACK_LOWER)?)?;
    let physical_attack_power_upper = parse_u32(column(columns, COLUMN_PHY_ATTACK_UPPER)?)?;
    let magical_attack_power_lower = parse_u32(column(columns, COLUMN_MAG_ATTACK_LOWER)?)?;
    let magical_attack_power_upper = parse_u32(column(columns, COLUMN_MAG_ATTACK_UPPER)?)?;
    let physical_reinforce_lower = parse_u32(column(columns, COLUMN_PHY_REINFORCE_LOWER)?)?;
    let physical_reinforce_upper = parse_u32(column(columns, COLUMN_PHY_REINFORCE_UPPER)?)?;
    let magical_reinforce_lower = parse_u32(column(columns, COLUMN_MAG_REINFORCE_LOWER)?)?;
    let magical_reinforce_upper = parse_u32(column(columns, COLUMN_MAG_REINFORCE_UPPER)?)?;
    let attack_rate = parse_u32(column(columns, COLUMN_ATTACK_RATE)?)?;
    let critical = parse_u32(column(columns, COLUMN_CRITICAL)?)?;
    Ok(
        RefItemData {
            ref_id,
            object_type,
            price,
            max_stack_size,
            range,
            required_level: if required_level_raw == 0 {
                None
            } else {
                Some(required_level_raw)
            },
            biological_type,
            physical_attack_power_lower,
            physical_attack_power_upper,
            magical_attack_power_lower,
            magical_attack_power_upper,
            critical,
            physical_reinforce_lower,
            physical_reinforce_upper,
            magical_reinforce_lower,
            magical_reinforce_upper,
            attack_rate,
        },
    )
}

/// The column at the given index, or the typed missing-column error.
fn column(columns: &Vec<Vec<u8>>, index: usize) -> (r: Result<&Vec<u8>, ParseError>)
    ensures
        match r {
            Ok(c) => index < columns@.len() && *c == columns@[index as int],
            Err(e) => index >= columns@.len() && e == ParseError::MissingColumn(index),
        },
{
    if index < columns.len() {
        Ok(&columns[index])
    } else {
        Err(ParseError::MissingColumn(index))
    }
}

} // verus!
