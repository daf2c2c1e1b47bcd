//! Constructor prefixes for EVM contract deployment.
//!
//! A contract is deployed by running *init code* whose return value becomes
//! the contract's runtime code. The init code built here is the smallest
//! useful one: it copies the runtime code, which is appended right behind it,
//! into memory and returns it.
//!
//! ```text
//! PUSHn size  PUSH1 offset  PUSH1 0  CODECOPY  PUSHn size  PUSH1 0  RETURN  <runtime code>
//! ```

use vstd::prelude::*;

verus! {

/// Opcode `PUSH1`; `PUSHn` is `PUSH1 + (n - 1)`.
pub const PUSH1: u8 = 0x60;

/// Opcode `PUSH2`.
pub const PUSH2: u8 = 0x61;

/// Opcode `PUSH3`.
pub const PUSH3: u8 = 0x62;

/// Opcode `PUSH4`.
pub const PUSH4: u8 = 0x63;

/// Opcode `CODECOPY`.
pub const CODECOPY: u8 = 0x39;

/// Opcode `RETURN`.
pub const RETURN: u8 = 0xf3;

/// Largest runtime code, in bytes, whose size still fits a `PUSH4` immediate.
pub const MAX_RUNTIME_SIZE: usize = 0xFFFF_FFFF;

/// The `width` low-order bytes of `value`, most significant byte first.
pub open spec fn big_endian(value: nat, width: nat) -> Seq<u8>
    decreases width,
{
    if width == 0 {
        Seq::empty()
    } else {
        big_endian(value / 256, (width - 1) as nat).push((value % 256) as u8)
    }
}

/// The number that `bytes` spell when read most significant byte first.
pub open spec fn big_endian_value(bytes: Seq<u8>) -> nat
    decreases bytes.len(),
{
    if bytes.len() == 0 {
        0
    } else {
        big_endian_value(bytes.drop_last()) * 256 + bytes.last() as nat
    }
}

/// `256` to the power `width`: the number of values that `width` bytes can spell.
pub open spec fn byte_range(width: nat) -> nat
    decreases width,
{
    if width == 0 {
        1
    } else {
        256 * byte_range((width - 1) as nat)
    }
}

/// Number of immediate bytes of the shortest `PUSH1`..`PUSH4` that holds `value`.
pub open spec fn push_width(value: nat) -> nat {
    if value <= 0xFF {
        1
    } else if value <= 0xFFFF {
        2
    } else if value <= 0xFF_FFFF {
        3
    } else {
        4
    }
}

/// The shortest `PUSH1`..`PUSH4` instruction that pushes `value`: the opcode,
/// then the value in big-endian order.
pub open spec fn push_instruction(value: nat) -> Seq<u8> {
    seq![(PUSH1 + push_width(value) - 1) as u8] + big_endian(value, push_width(value))
}

/// Length of the constructor prefix for runtime code of `runtime_size` bytes,
/// which is also the offset at which the runtime code starts in the init code.
pub open spec fn constructor_len(runtime_size: nat) -> nat {
    2 * push_width(runtime_size) + 10
}

/// The constructor prefix for runtime code of `runtime_size` bytes.
///
/// It copies `runtime_size` bytes of its own code, starting right behind
/// itself, to memory offset 0 and returns them.
pub open spec fn constructor_code(runtime_size: nat) -> Seq<u8> {
    push_instruction(runtime_size) + push_instruction(constructor_len(runtime_size))
        + seq![PUSH1, 0u8, CODECOPY] + push_instruction(runtime_size) + seq![PUSH1, 0u8, RETURN]
}

/// The init code that deploys `runtime`: the constructor prefix followed by
/// the runtime code itself.
pub open spec fn deployment_code(runtime: Seq<u8>) -> Seq<u8> {
    constructor_code(runtime.len()) + runtime
}

/// Unfolds `big_endian` for the widths that `PUSH1`..`PUSH4` use.
proof fn lemma_big_endian_unfold(value: nat)
    ensures
        big_endian(value, 1) == seq![(value % 256) as u8],
        big_endian(value, 2) == seq![(value / 256 % 256) as u8, (value % 256) as u8],
        big_endian(value, 3) == seq![
            (value / 65536 % 256) as u8,
            (value / 256 % 256) as u8,
            (value % 256) as u8,
        ],
        big_endian(value, 4) == seq![
            (value / 16777216 % 256) as u8,
            (value / 65536 % 256) as u8,
            (value / 256 % 256) as u8,
            (value % 256) as u8,
        ],
{
    reveal_with_fuel(big_endian, 5);
    assert(big_endian(value, 3) =~= seq![
        (value / 65536 % 256) as u8,
        (value / 256 % 256) as u8,
        (value % 256) as u8,
    ]);
    assert(big_endian(value, 4) =~= seq![
        (value / 16777216 % 256) as u8,
        (value / 65536 % 256) as u8,
        (value / 256 % 256) as u8,
        (value % 256) as u8,
    ]);
}

/// Appends to `code` the shortest `PUSH1`..`PUSH4` instruction that pushes
/// `value`.
pub fn append_push(code: &mut Vec<u8>, value: u32)
    ensures
        final(code)@ == old(code)@ + push_instruction(value as nat),
{
    proof {
        lemma_big_endian_unfold(value as nat);
    }
    let b0: u8 = (value & 0xFF) as u8;
    let b1: u8 = ((value >> 8) & 0xFF) as u8;
    let b2: u8 = ((value >> 16) & 0xFF) as u8;
    let b3: u8 = ((value >> 24) & 0xFF) as u8;
    assert(value & 0xFF == value % 256) by (bit_vector);
    assert((value >> 8) & 0xFF == value / 256 % 256) by (bit_vector);
    assert((value >> 16) & 0xFF == value / 65536 % 256) by (bit_vector);
    assert((value >> 24) & 0xFF == value / 16777216 % 256) by (bit_vector);
    if value <= 0xFF {
        code.push(PUSH1);
        code.push(b0);
    } else if value <= 0xFFFF {
        code.push(PUSH2);
        code.push(b1);
        code.push(b0);
    } else if value <= 0xFF_FFFF {
        code.push(PUSH3);
        code.push(b2);
        code.push(b1);
        code.push(b0);
    } else {
        code.push(PUSH4);
        code.push(b3);
        code.push(b2);
        code.push(b1);
        code.push(b0);
    }
}

/// Builds the constructor prefix for runtime code of `runtime_size` bytes.
pub fn build_constructor(runtime_size: u32) -> (code: Vec<u8>)
    ensures
        code@ == constructor_code(runtime_size as nat),
{
    let width: u32 = if runtime_size <= 0xFF {
        1
    } else if runtime_size <= 0xFFFF {
        2
    } else if runtime_size <= 0xFF_FFFF {
        3
    } else {
        4
    };
    let offset: u32 = 2 * width + 10;
    let mut code: Vec<u8> = Vec::new();
    append_push(&mut code, runtime_size);
    append_push(&mut code, offset);
    code.push(PUSH1);
    code.push(0);
    code.push(CODECOPY);
    append_push(&mut code, runtime_size);
    code.push(PUSH1);
    code.push(0);
    code.push(RETURN);
    code
}

/// Builds the init code that deploys `bytecode` as a contract's runtime code.
///
/// Returns `None` exactly when `bytecode` is longer than
/// [`MAX_RUNTIME_SIZE`], the largest size a `PUSH4` can carry.
pub fn build_deployment_code(bytecode: &[u8]) -> (r: Option<Vec<u8>>)
    ensures
        bytecode@.len() <= MAX_RUNTIME_SIZE ==> r.is_some() && r.unwrap()@ == deployment_code(
            bytecode@,
        ),
        bytecode@.len() > MAX_RUNTIME_SIZE ==> r.is_none(),
{
    let runtime_size: usize = bytecode.len();
    if runtime_size > MAX_RUNTIME_SIZE {
        return None;
    }
    let mut code: Vec<u8> = build_constructor(runtime_size as u32);
    code.extend_from_slice(bytecode);
    Some(code)
}

/// Reading back the big-endian bytes of a value gives the value, reduced to
/// the range that `width` bytes can spell.
pub proof fn lemma_big_endian_value(value: nat, width: nat)
    ensures
        big_endian(value, width).len() == width,
        big_endian_value(big_endian(value, width)) == value % byte_range(width),
    decreases width,
{
    if width > 0 {
        let rest = big_endian(value / 256, (width - 1) as nat);
        let low: u8 = (value % 256) as u8;
        let range: nat = byte_range((width - 1) as nat);
        lemma_big_endian_value(value / 256, (width - 1) as nat);
        assert(rest.push(low).drop_last() =~= rest);
        assert(range > 0) by {
            lemma_byte_range_positive((width - 1) as nat);
        }
        assert((value / 256 % range) * 256 + value % 256 == value % (256 * range)) by {
            vstd::arithmetic::div_mod::lemma_breakdown(value as int, 256, range as int);
        }
    }
}

/// `width` bytes can spell at least one value.
pub proof fn lemma_byte_range_positive(width: nat)
    ensures
        byte_range(width) > 0,
    decreases width,
{
    if width > 0 {
        lemma_byte_range_positive((width - 1) as nat);
        assert(256 * byte_range((width - 1) as nat) > 0) by (nonlinear_arith)
            requires
                byte_range((width - 1) as nat) > 0,
        ;
    }
}

/// A push instruction is as short as it can be and loses nothing: its
/// immediate spells the value exactly, and one byte fewer could not hold it.
pub proof fn lemma_push_instruction_exact(value: nat)
    requires
        value <= MAX_RUNTIME_SIZE,
    ensures
        push_instruction(value).len() == 1 + push_width(value),
        PUSH1 <= push_instruction(value)[0] <= PUSH4,
        push_instruction(value)[0] == PUSH1 + push_width(value) - 1,
        big_endian_value(push_instruction(value).skip(1)) == value,
        byte_range((push_width(value) - 1) as nat) <= value || push_width(value) == 1,
{
    reveal_with_fuel(byte_range, 5);
    let width: nat = push_width(value);
    lemma_big_endian_value(value, width);
    assert(push_instruction(value).skip(1) =~= big_endian(value, width));
    assert(value % byte_range(width) == value) by {
        vstd::arithmetic::div_mod::lemma_small_mod(value, byte_range(width));
    }
}

/// The constructor prefix has the length that it pushes as the code offset.
pub proof fn lemma_constructor_len(runtime_size: nat)
    ensures
        constructor_code(runtime_size).len() == constructor_len(runtime_size),
        12 <= constructor_len(runtime_size) <= 18,
{
    lemma_big_endian_value(runtime_size, push_width(runtime_size));
    lemma_big_endian_value(constructor_len(runtime_size), 1);
}

/// In the init code the runtime code starts exactly at the offset that the
/// constructor hands to `CODECOPY`, and runs to the end: what the constructor
/// copies and returns is the runtime code, whole and unchanged.
pub proof fn lemma_runtime_code_at_offset(runtime: Seq<u8>)
    ensures
        deployment_code(runtime).len() == constructor_len(runtime.len()) + runtime.len(),
        deployment_code(runtime).subrange(
            constructor_len(runtime.len()) as int,
            deployment_code(runtime).len() as int,
        ) == runtime,
        deployment_code(runtime).subrange(0, constructor_len(runtime.len()) as int)
            == constructor_code(runtime.len()),
{
    lemma_constructor_len(runtime.len());
}

} // verus!
