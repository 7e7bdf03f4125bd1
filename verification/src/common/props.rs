//! The property-mask engine.
//!
//! A record with a property mask declares its fixed block as a table of
//! [`Prop`] entries in file order. A bit of the mask says whether the field is
//! stored; a field that is not stored takes its default and no bytes. The
//! layout of the block therefore follows from the table and the mask alone.
use vstd::prelude::*;
use crate::common::parser::{is_width, le_value, pad_len, AlignedParser};
use crate::error::{DecodeError, ErrorKind, Field, RecordKind};

verus! {

/// The closed enumerations that a one-byte field can hold.
#[derive(Clone, Copy, Debug, PartialEq, Eq, Structural)]
pub enum Variant {
    BorderStyle,
    Cycle,
    MousePointer,
    SpecialEffect,
    PictureAlignment,
    PictureSizeMode,
}

/// What a stored value must satisfy.
#[derive(Clone, Copy, Debug, PartialEq, Eq, Structural)]
pub enum Check {
    /// Every value is accepted.
    Any,
    /// A flag set: only the given bits may be set.
    Bits(u32),
    /// A closed enumeration.
    Variant(Variant),
    /// An OLE color, whose high byte is a tag.
    Color,
    /// The inline placeholder of a value that is stored in the stream data.
    Placeholder,
    /// A number in the given range, both ends included.
    Range(u32, u32),
}

/// One entry of a fixed block: the mask bit that gates it, its width in bytes
/// (which is also its alignment), its check, the raw default and its name.
#[derive(Clone, Copy, Debug, PartialEq, Eq, Structural)]
pub struct Prop {
    pub bit: u32,
    pub width: usize,
    pub check: Check,
    pub default: u32,
    pub field: Field,
}

impl Prop {
    /// The entry with the given parts.
    #[verifier::allow_in_spec]
    pub fn new(bit: u32, width: usize, check: Check, default: u32, field: Field) -> (p: Prop)
        returns
            (Prop { bit, width, check, default, field }),
    {
        Prop { bit, width, check, default, field }
    }
}

/// The declared values of each closed enumeration.
pub open spec fn variant_known(kind: Variant, v: u32) -> bool {
    match kind {
        Variant::BorderStyle => v == 0 || v == 1,
        Variant::Cycle => v == 0 || v == 2,
        Variant::MousePointer => v <= 3 || (6 <= v <= 15) || v == 99,
        Variant::SpecialEffect => v <= 3 || v == 6,
        Variant::PictureAlignment => v <= 4,
        Variant::PictureSizeMode => v == 0 || v == 1 || v == 3,
    }
}

/// The tag byte of an OLE color word.
pub open spec fn color_tag(v: u32) -> u32 {
    v / 0x100_0000
}

/// The declared tags of an OLE color.
pub open spec fn color_tag_known(tag: u32) -> bool {
    tag == 0x00 || tag == 0x01 || tag == 0x02 || tag == 0x80
}

/// Whether `v` passes `check`.
pub open spec fn check_ok(check: Check, v: u32) -> bool {
    match check {
        Check::Any => true,
        Check::Bits(all) => v & !all == 0,
        Check::Variant(kind) => variant_known(kind, v),
        Check::Color => color_tag_known(color_tag(v)),
        Check::Placeholder => v == 0xFFFF,
        Check::Range(lo, hi) => lo <= v <= hi,
    }
}

/// The cause reported for a value that fails `check`.
pub open spec fn check_error(check: Check, v: u32) -> ErrorKind {
    match check {
        Check::Any => ErrorKind::ConstraintViolation,
        Check::Bits(_) => ErrorKind::UnknownBits(v),
        Check::Variant(_) => ErrorKind::UnknownEnum(v),
        Check::Color => ErrorKind::UnknownEnum(color_tag(v)),
        Check::Placeholder => ErrorKind::PlaceholderMismatch,
        Check::Range(_, _) => ErrorKind::ConstraintViolation,
    }
}

/// Tests a value against a check: `None` when it passes, else the cause.
pub fn run_check(check: Check, v: u32) -> (r: Option<ErrorKind>)
    ensures
        r == (if check_ok(check, v) {
            None
        } else {
            Some(check_error(check, v))
        }),
{
    let ok = match check {
        Check::Any => true,
        Check::Bits(all) => v & !all == 0,
        Check::Variant(kind) => match kind {
            Variant::BorderStyle => v == 0 || v == 1,
            Variant::Cycle => v == 0 || v == 2,
            Variant::MousePointer => v <= 3 || (6 <= v && v <= 15) || v == 99,
            Variant::SpecialEffect => v <= 3 || v == 6,
            Variant::PictureAlignment => v <= 4,
            Variant::PictureSizeMode => v == 0 || v == 1 || v == 3,
        },
        Check::Color => {
            let tag: u32 = v / 0x100_0000;
            tag == 0x00 || tag == 0x01 || tag == 0x02 || tag == 0x80
        },
        Check::Placeholder => v == 0xFFFF,
        Check::Range(lo, hi) => lo <= v && v <= hi,
    };
    if ok {
        None
    } else {
        Some(
            match check {
                Check::Any => ErrorKind::ConstraintViolation,
                Check::Bits(_) => ErrorKind::UnknownBits(v),
                Check::Variant(_) => ErrorKind::UnknownEnum(v),
                Check::Color => ErrorKind::UnknownEnum(v / 0x100_0000),
                Check::Placeholder => ErrorKind::PlaceholderMismatch,
                Check::Range(_, _) => ErrorKind::ConstraintViolation,
            },
        )
    }
}

/// Whether `mask` says that `p` is stored.
pub open spec fn present(mask: u32, p: Prop) -> bool {
    mask & p.bit != 0
}

/// The greatest value that `width` bytes hold.
pub open spec fn width_max(width: int) -> int {
    if width == 1 {
        0xFF
    } else if width == 2 {
        0xFFFF
    } else {
        0xFFFF_FFFF
    }
}

/// A table is well formed when every width is a field width and every default
/// fits its width and passes its own check.
pub open spec fn props_wf(props: Seq<Prop>) -> bool {
    forall|i: int|
        0 <= i < props.len() ==> {
            &&& is_width((#[trigger] props[i]).width as int)
            &&& props[i].default <= width_max(props[i].width as int)
            &&& check_ok(props[i].check, props[i].default)
        }
}

/// The property mask of `record` at `pos`: a 32-bit word in which only the
/// bits of `all` may be set.
pub open spec fn spec_mask(record: RecordKind, input: Seq<u8>, pos: int, all: u32) -> Result<
    u32,
    DecodeError,
> {
    if pos + 4 > input.len() {
        Err(DecodeError::at(ErrorKind::Truncated, record, Field::PropMask, pos))
    } else if le_value(input, pos, 4) & !all != 0 {
        Err(DecodeError::at(ErrorKind::UnknownBits(le_value(input, pos, 4)), record, Field::PropMask, pos))
    } else {
        Ok(le_value(input, pos, 4))
    }
}

/// Reads the property mask of a record, the first word on its cursor.
/// On success the cursor and the reader have passed the four bytes.
pub fn read_mask(record: RecordKind, input: &[u8], pos: usize, all: u32, ap: &mut AlignedParser) -> (r:
    Result<u32, DecodeError>)
    requires
        old(ap).cursor == 0,
        pos <= input@.len(),
    ensures
        r == spec_mask(record, input@, pos as int, all),
        r.is_ok() ==> final(ap).cursor == 4 && pos + 4 <= input@.len(),
        r matches Err(e) ==> e.offset <= input@.len(),
{
    match ap.le_u32(input, pos) {
        None => Err(DecodeError { kind: ErrorKind::Truncated, record, field: Field::PropMask, offset: pos }),
        Some((mask, _)) => {
            if mask & !all != 0 {
                Err(
                    DecodeError {
                        kind: ErrorKind::UnknownBits(mask),
                        record,
                        field: Field::PropMask,
                        offset: pos,
                    },
                )
            } else {
                Ok(mask)
            }
        },
    }
}

/// The position behind the padding that makes a block of `record` a multiple
/// of four bytes long, with the cursor at `cursor` and the reader at `pos`.
pub open spec fn spec_padding(record: RecordKind, input: Seq<u8>, pos: int, cursor: int) -> Result<
    int,
    DecodeError,
> {
    if pos + pad_len(cursor, 4) > input.len() {
        Err(DecodeError::at(ErrorKind::Truncated, record, Field::Padding, pos))
    } else {
        Ok(pos + pad_len(cursor, 4))
    }
}

/// Skips the padding that brings the cursor to a multiple of four.
pub fn read_padding(record: RecordKind, input: &[u8], pos: usize, ap: &mut AlignedParser) -> (r: Result<
    usize,
    DecodeError,
>)
    requires
        old(ap).cursor <= pos <= input@.len(),
    ensures
        match spec_padding(record, input@, pos as int, old(ap).cursor as int) {
            Ok(next) => r == Ok::<usize, DecodeError>(next as usize) && next <= input@.len()
                && final(ap).cursor == old(ap).cursor + pad_len(old(ap).cursor as int, 4)
                && final(ap).cursor <= next,
            Err(e) => r == Err::<usize, DecodeError>(e),
        },
        r matches Err(e) ==> e.offset <= input@.len(),
{
    match ap.align(input, pos, 4) {
        Some(next) => Ok(next),
        None => Err(DecodeError { kind: ErrorKind::Truncated, record, field: Field::Padding, offset: pos }),
    }
}

/// The logical cursor behind the first `n` entries of `props`, for a block that
/// starts with the cursor at `start`. No byte of the input enters into it.
pub open spec fn fixed_cursor(props: Seq<Prop>, mask: u32, start: int, n: int) -> int
    decreases n,
{
    if n <= 0 {
        start
    } else {
        let c = fixed_cursor(props, mask, start, n - 1);
        let p = props[n - 1];
        if present(mask, p) {
            c + pad_len(c, p.width as int) + p.width
        } else {
            c
        }
    }
}

/// The position in the input at which entry `i` begins, padding included, for a
/// block whose first byte is at `pos` with the cursor at `start`.
pub open spec fn prop_pos(props: Seq<Prop>, mask: u32, pos: int, start: int, i: int) -> int {
    pos + (fixed_cursor(props, mask, start, i) - start)
}

/// The position of the value of entry `i`, behind its padding.
pub open spec fn prop_at(props: Seq<Prop>, mask: u32, pos: int, start: int, i: int) -> int {
    prop_pos(props, mask, pos, start, i) + pad_len(
        fixed_cursor(props, mask, start, i),
        props[i].width as int,
    )
}

/// The raw values of the first `n` entries, or the first failure in file order.
///
/// An entry that is not stored yields its default. A stored entry yields the
/// little-endian value at its place, is `Truncated` when the input ends before
/// the end of that value, and fails with the cause of its check otherwise.
pub open spec fn fixed_block(
    record: RecordKind,
    props: Seq<Prop>,
    mask: u32,
    input: Seq<u8>,
    pos: int,
    start: int,
    n: int,
) -> Result<Seq<u32>, DecodeError>
    decreases n,
{
    if n <= 0 {
        Ok(Seq::empty())
    } else {
        match fixed_block(record, props, mask, input, pos, start, n - 1) {
            Err(e) => Err(e),
            Ok(vals) => {
                let p = props[n - 1];
                let at = prop_at(props, mask, pos, start, n - 1);
                if !present(mask, p) {
                    Ok(vals.push(p.default))
                } else if at + p.width > input.len() {
                    Err(
                        DecodeError::at(
                            ErrorKind::Truncated,
                            record,
                            p.field,
                            prop_pos(props, mask, pos, start, n - 1),
                        ),
                    )
                } else if !check_ok(p.check, le_value(input, at, p.width as int)) {
                    Err(
                        DecodeError::at(
                            check_error(p.check, le_value(input, at, p.width as int)),
                            record,
                            p.field,
                            at,
                        ),
                    )
                } else {
                    Ok(vals.push(le_value(input, at, p.width as int)))
                }
            },
        }
    }
}

/// What a successful fixed block guarantees of its values and its extent.
pub proof fn lemma_fixed_block_ok(
    record: RecordKind,
    props: Seq<Prop>,
    mask: u32,
    input: Seq<u8>,
    pos: int,
    start: int,
    n: int,
)
    requires
        props_wf(props),
        0 <= n <= props.len(),
        0 <= start,
        0 <= pos <= input.len(),
        fixed_block(record, props, mask, input, pos, start, n) is Ok,
    ensures
        ({
            let vals = fixed_block(record, props, mask, input, pos, start, n)->Ok_0;
            &&& vals.len() == n
            &&& start <= fixed_cursor(props, mask, start, n)
            &&& prop_pos(props, mask, pos, start, n) <= input.len()
            &&& forall|i: int|
                0 <= i < n ==> {
                    &&& check_ok(props[i].check, #[trigger] vals[i])
                    &&& vals[i] <= width_max(props[i].width as int)
                    &&& !present(mask, props[i]) ==> vals[i] == props[i].default
                    &&& present(mask, props[i]) ==> vals[i] == le_value(
                        input,
                        prop_at(props, mask, pos, start, i),
                        props[i].width as int,
                    )
                }
            &&& forall|i: int|
                0 <= i <= n ==> fixed_block(record, props, mask, input, pos, start, i) is Ok
        }),
    decreases n,
{
    if n > 0 {
        lemma_fixed_block_ok(record, props, mask, input, pos, start, n - 1);
        let prev = fixed_block(record, props, mask, input, pos, start, n - 1)->Ok_0;
        let vals = fixed_block(record, props, mask, input, pos, start, n)->Ok_0;
        assert(is_width(props[n - 1].width as int));
        assert forall|i: int| 0 <= i < n implies {
            &&& check_ok(props[i].check, #[trigger] vals[i])
            &&& vals[i] <= width_max(props[i].width as int)
            &&& !present(mask, props[i]) ==> vals[i] == props[i].default
            &&& present(mask, props[i]) ==> vals[i] == le_value(
                input,
                prop_at(props, mask, pos, start, i),
                props[i].width as int,
            )
        } by {
            if i < n - 1 {
                assert(vals[i] == prev[i]);
            }
        }
    }
}

/// The first failure is final: entries behind it do not change the outcome.
pub proof fn lemma_fixed_block_err_stays(
    record: RecordKind,
    props: Seq<Prop>,
    mask: u32,
    input: Seq<u8>,
    pos: int,
    start: int,
    i: int,
    n: int,
)
    requires
        0 <= i <= n,
        fixed_block(record, props, mask, input, pos, start, i) is Err,
    ensures
        fixed_block(record, props, mask, input, pos, start, n) == fixed_block(
            record,
            props,
            mask,
            input,
            pos,
            start,
            i,
        ),
    decreases n - i,
{
    if i < n {
        lemma_fixed_block_err_stays(record, props, mask, input, pos, start, i, n - 1);
    }
}

/// Strict rejection: a stored value that fails its check fails the block.
///
/// If the entries in front of entry `i` decode, entry `i` is stored and its
/// bytes are there, and its value fails its check, then the block fails with
/// the cause of that check, at that field and at the place of that value:
/// `UnknownBits` for a flag set, `UnknownEnum` for an enumeration or a color
/// tag, `PlaceholderMismatch` for a placeholder, `ConstraintViolation` for a
/// number out of range.
pub proof fn lemma_fixed_block_rejects(
    record: RecordKind,
    props: Seq<Prop>,
    mask: u32,
    input: Seq<u8>,
    pos: int,
    start: int,
    i: int,
    n: int,
)
    requires
        0 <= i < n <= props.len(),
        fixed_block(record, props, mask, input, pos, start, i) is Ok,
        present(mask, props[i]),
        prop_at(props, mask, pos, start, i) + props[i].width <= input.len(),
        !check_ok(
            props[i].check,
            le_value(input, prop_at(props, mask, pos, start, i), props[i].width as int),
        ),
    ensures
        fixed_block(record, props, mask, input, pos, start, n) == Err::<Seq<u32>, DecodeError>(
            DecodeError::at(
                check_error(
                    props[i].check,
                    le_value(input, prop_at(props, mask, pos, start, i), props[i].width as int),
                ),
                record,
                props[i].field,
                prop_at(props, mask, pos, start, i),
            ),
        ),
{
    lemma_fixed_block_err_stays(record, props, mask, input, pos, start, i + 1, n);
}

/// Default preservation: a field whose mask bit is clear has its default and
/// takes no bytes. The cursor and the reader behind it stand where they stood
/// in front of it.
pub proof fn lemma_absent_takes_default(
    record: RecordKind,
    props: Seq<Prop>,
    mask: u32,
    input: Seq<u8>,
    pos: int,
    start: int,
    i: int,
    n: int,
)
    requires
        props_wf(props),
        0 <= i < n <= props.len(),
        0 <= start,
        0 <= pos <= input.len(),
        !present(mask, props[i]),
        fixed_block(record, props, mask, input, pos, start, n) is Ok,
    ensures
        fixed_block(record, props, mask, input, pos, start, n)->Ok_0[i] == props[i].default,
        fixed_cursor(props, mask, start, i + 1) == fixed_cursor(props, mask, start, i),
        prop_pos(props, mask, pos, start, i + 1) == prop_pos(props, mask, pos, start, i),
{
    lemma_fixed_block_ok(record, props, mask, input, pos, start, n);
}

/// Alignment invariance: the layout of a fixed block depends only on which
/// fields are stored. Two masks that agree on the presence of every entry put
/// every entry at the same place and leave the cursor at the same value,
/// whatever the input holds: the padding in front of every field is the same.
pub proof fn lemma_layout_depends_on_presence(
    props: Seq<Prop>,
    mask_a: u32,
    mask_b: u32,
    pos: int,
    start: int,
    n: int,
)
    requires
        0 <= n <= props.len(),
        forall|i: int| 0 <= i < n ==> present(mask_a, #[trigger] props[i]) == present(mask_b, props[i]),
    ensures
        fixed_cursor(props, mask_a, start, n) == fixed_cursor(props, mask_b, start, n),
        forall|i: int|
            0 <= i < n ==> #[trigger] prop_at(props, mask_a, pos, start, i) == prop_at(
                props,
                mask_b,
                pos,
                start,
                i,
            ),
    decreases n,
{
    if n > 0 {
        lemma_layout_depends_on_presence(props, mask_a, mask_b, pos, start, n - 1);
        assert(present(mask_a, props[n - 1]) == present(mask_b, props[n - 1]));
    }
}

/// Reads the fixed block that `props` declares, with the reader at `pos`.
///
/// Returns the raw value of every entry, defaults included, and the position
/// behind the block. The cursor ends where the table and the mask put it.
pub fn read_fixed_block(
    record: RecordKind,
    props: &[Prop],
    mask: u32,
    input: &[u8],
    pos: usize,
    ap: &mut AlignedParser,
) -> (r: Result<(Vec<u32>, usize), DecodeError>)
    requires
        props_wf(props@),
        old(ap).cursor <= pos <= input@.len(),
    ensures
        match fixed_block(
            record,
            props@,
            mask,
            input@,
            pos as int,
            old(ap).cursor as int,
            props@.len() as int,
        ) {
            Ok(vals) => {
                &&& r matches Ok((v, p))
                &&& v@ == vals
                &&& p == prop_pos(
                    props@,
                    mask,
                    pos as int,
                    old(ap).cursor as int,
                    props@.len() as int,
                )
                &&& final(ap).cursor == fixed_cursor(
                    props@,
                    mask,
                    old(ap).cursor as int,
                    props@.len() as int,
                )
                &&& final(ap).cursor <= p <= input@.len()
            },
            Err(e) => r == Err::<(Vec<u32>, usize), DecodeError>(e),
        },
        r matches Err(e) ==> e.offset <= input@.len(),
{
    let ghost start = ap.cursor as int;
    let ghost pos0 = pos as int;
    let mut vals: Vec<u32> = Vec::new();
    let mut at: usize = pos;
    let mut i: usize = 0;
    while i < props.len()
        invariant
            props_wf(props@),
            0 <= i <= props@.len(),
            start == old(ap).cursor,
            pos0 == pos,
            fixed_block(record, props@, mask, input@, pos0, start, i as int) == Ok::<
                Seq<u32>,
                DecodeError,
            >(vals@),
            ap.cursor == fixed_cursor(props@, mask, start, i as int),
            at == prop_pos(props@, mask, pos0, start, i as int),
            ap.cursor <= at <= input@.len(),
        decreases props@.len() - i,
    {
        let p = props[i];
        assert(is_width(p.width as int));
        if mask & p.bit != 0 {
            let ghost before = ap.cursor as int;
            match ap.read(input, at, p.width) {
                None => {
                    proof {
                        lemma_fixed_block_err_stays(
                            record,
                            props@,
                            mask,
                            input@,
                            pos0,
                            start,
                            i + 1,
                            props@.len() as int,
                        );
                    }
                    return Err(
                        DecodeError {
                            kind: ErrorKind::Truncated,
                            record,
                            field: p.field,
                            offset: at,
                        },
                    );
                },
                Some((v, next)) => {
                    assert(next == at + pad_len(before, p.width as int) + p.width);
                    assert(v == le_value(
                        input@,
                        prop_at(props@, mask, pos0, start, i as int),
                        p.width as int,
                    ));
                    assert(fixed_cursor(props@, mask, start, i + 1) == before + pad_len(
                        before,
                        p.width as int,
                    ) + p.width);
                    match run_check(p.check, v) {
                        Some(kind) => {
                            proof {
                                lemma_fixed_block_err_stays(
                                    record,
                                    props@,
                                    mask,
                                    input@,
                                    pos0,
                                    start,
                                    i + 1,
                                    props@.len() as int,
                                );
                            }
                            return Err(
                                DecodeError {
                                    kind,
                                    record,
                                    field: p.field,
                                    offset: next - p.width,
                                },
                            );
                        },
                        None => {
                            vals.push(v);
                            at = next;
                        },
                    }
                },
            }
        } else {
            vals.push(p.default);
        }
        i = i + 1;
    }
    Ok((vals, at))
}

} // verus!
