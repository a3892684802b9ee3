//! Aids for bringing up a board: lighting an LED on a GPIO pin and writing a
//! number in hexadecimal.

use crate::register::Operation;
use vstd::prelude::*;

verus! {

/// Address of the first function select register of the GPIO block.
pub const GPIO_FUNCTION_SELECT: u32 = 0x3f20_0000;

/// Address of the first output set register of the GPIO block.
pub const GPIO_OUTPUT_SET: u32 = 0x3f20_001c;

/// The function select register that holds the function of the given pin:
/// one register of four bytes for every ten pins.
pub open spec fn function_select_register(pin: u32) -> int {
    GPIO_FUNCTION_SELECT + 4 * (pin / 10)
}

/// The bit at which the function of the given pin starts in its function
/// select register: three bits for each pin.
pub open spec fn function_select_shift(pin: u32) -> u32 {
    ((pin % 10) * 3) as u32
}

/// The content of a function select register after the given pin was made
/// an output: the three bits of the pin hold 1, all others stay.
pub open spec fn selected_as_output(current: u32, pin: u32) -> u32 {
    (current & !(7u32 << function_select_shift(pin))) | (1u32 << function_select_shift(pin))
}

/// The address that is written to drive the given pin high.
pub open spec fn output_set_register(pin: u32) -> int {
    GPIO_OUTPUT_SET + pin / 32
}

/// The two stores that light the LED on the given pin: the pin is made an
/// output, then driven high. `current` is what the function select register
/// of the pin holds.
pub open spec fn led_lighting(pin: u32, current: u32) -> Seq<Operation> {
    seq![
        Operation::Write32 {
            address: function_select_register(pin) as u64,
            word: selected_as_output(current, pin),
        },
        Operation::Write32 {
            address: output_set_register(pin) as u64,
            word: 1u32 << (pin & 0x1f),
        },
    ]
}

/// Finds the function select register that has to be read before the LED on
/// the given pin is lit.
pub fn led_select_register(pin: u32) -> (address: u32)
    ensures
        address == function_select_register(pin),
{
    let fsel_num = pin / 10;
    0x3f20_0000 + 4 * fsel_num
}

/// Plans the two stores that light the LED on the given pin, `current`
/// being the content of the function select register of the pin.
pub fn lit_led(pin: u32, current: u32) -> (operations: Vec<Operation>)
    ensures
        operations@ == led_lighting(pin, current),
{
    let fsel_num = pin / 10;
    let fsel_shift = (pin % 10) * 3;
    let fsel_addr = 0x3f20_0000 + 4 * fsel_num;
    let set_addr = 0x3f20_001c + pin / 32;
    let mut fsel: u32 = current;
    fsel = fsel & !(7u32 << fsel_shift);
    fsel = fsel | (1u32 << fsel_shift);
    assert(pin & 0x1f < 32) by (bit_vector);
    let set: u32 = 1u32 << (pin & 0x1F);
    let mut operations: Vec<Operation> = Vec::new();
    operations.push(Operation::Write32 { address: fsel_addr as u64, word: fsel });
    operations.push(Operation::Write32 { address: set_addr as u64, word: set });
    assert(operations@ =~= led_lighting(pin, current));
    operations
}

/// Making a pin an output sets the three function bits of the pin to 1 and
/// leaves the functions of the other pins in the register as they were.
pub proof fn selection_touches_one_pin(current: u32, pin: u32)
    ensures
        (selected_as_output(current, pin) >> function_select_shift(pin)) & 7 == 1,
        selected_as_output(current, pin) & !(7u32 << function_select_shift(pin)) == current & !(
        7u32 << function_select_shift(pin)),
{
    let shift = function_select_shift(pin);
    assert(shift <= 27);
    assert((((current & !(7u32 << shift)) | (1u32 << shift)) >> shift) & 7 == 1 && ((current & !(
    7u32 << shift)) | (1u32 << shift)) & !(7u32 << shift) == current & !(7u32 << shift))
        by (bit_vector)
        requires
            shift <= 27,
    ;
}

/// The character of a hexadecimal digit.
pub open spec fn hex_char(digit: int) -> u8
    recommends
        0 <= digit < 16,
{
    if digit < 10 {
        (0x30 + digit) as u8
    } else {
        (0x41 + digit - 10) as u8
    }
}

/// The hexadecimal digits of a number, the most significant first, without
/// leading zeros; zero has no digits.
pub open spec fn hex_digits(value: nat) -> Seq<u8>
    decreases value,
{
    if value == 0 {
        seq![]
    } else {
        hex_digits(value / 16).push(hex_char((value % 16) as int))
    }
}

/// The number that a sequence of hexadecimal digit characters stands for.
pub open spec fn hex_value(text: Seq<u8>) -> nat
    decreases text.len(),
{
    if text.len() == 0 {
        0
    } else {
        let last = text.last();
        let digit: nat = if last >= 0x41 {
            (last - 0x41 + 10) as nat
        } else {
            (last - 0x30) as nat
        };
        hex_value(text.drop_last()) * 16 + digit
    }
}

/// The line that shows a number: a line break, the prefix `0x`, the digits.
pub open spec fn hex_line(value: u64) -> Seq<u8> {
    seq![0x0du8, 0x0au8, 0x30u8, 0x78u8] + hex_digits(value as nat)
}

/// The digits of a number stand for that number, and there are sixteen of
/// them at most.
pub proof fn hex_digits_are_exact(value: nat)
    ensures
        hex_value(hex_digits(value)) == value,
        value > 0 ==> hex_digits(value).first() != 0x30,
        value <= u64::MAX ==> hex_digits(value).len() <= 16,
    decreases value,
{
    if value > 0 {
        hex_digits_are_exact(value / 16);
        let higher = hex_digits(value / 16);
        let digits = hex_digits(value);
        assert(digits.drop_last() =~= higher);
        if value / 16 > 0 {
            assert(digits.first() == higher.first());
        }
        if value <= u64::MAX {
            hex_length(value);
        }
    }
}

/// A number below the `n`-th power of sixteen has `n` digits at most.
proof fn hex_length(value: nat)
    requires
        value <= u64::MAX,
    ensures
        hex_digits(value).len() <= 16,
{
    reveal_with_fuel(hex_digits, 18);
    assert(value / 16 / 16 / 16 / 16 / 16 / 16 / 16 / 16 / 16 / 16 / 16 / 16 / 16 / 16 / 16 / 16
        == 0);
}

/// Writes a number as a line of text: a line break, the prefix `0x`, then
/// the hexadecimal digits in capitals, the most significant first. Zero has
/// no digits.
pub fn dump_hex(value: u64) -> (text: Vec<u8>)
    ensures
        text@ == hex_line(value),
{
    let mut tmp = value;
    let mut hex: [u8; 32] = [0; 32];
    let mut idx: usize = 0;
    proof {
        hex_digits_are_exact(value as nat);
    }
    while tmp != 0
        invariant
            idx <= 16,
            idx + hex_digits(tmp as nat).len() == hex_digits(value as nat).len(),
            hex_digits(value as nat).len() <= 16,
            forall|k: int| 0 <= k < idx ==> #[trigger] hex@[k] == hex_digits(value as nat)[
                hex_digits(value as nat).len() - 1 - k
            ],
            forall|k: int| 0 <= k < idx ==> #[trigger] hex@[k] != 0,
            forall|k: int| idx <= k < 32 ==> #[trigger] hex@[k] == 0,
            forall|k: int|
                0 <= k < hex_digits(tmp as nat).len() ==> hex_digits(tmp as nat)[k] == hex_digits(
                    value as nat,
                )[k],
        decreases tmp,
    {
        let nibble = tmp & 0xF;
        assert(nibble == tmp % 16 && tmp >> 4 == tmp / 16) by (bit_vector)
            requires
                nibble == tmp & 0xF,
        ;
        let digit: u8 = if nibble < 10 {
            0x30 + nibble as u8
        } else {
            0x41 + (nibble as u8 - 10)
        };
        assert(hex_digits(tmp as nat) == hex_digits((tmp / 16) as nat).push(digit));
        hex[idx] = digit;
        tmp = tmp >> 4;
        idx = idx + 1;
    }
    let mut text: Vec<u8> = Vec::new();
    text.push(0x0d);
    text.push(0x0a);
    text.push(0x30);
    text.push(0x78);
    let ghost digits = hex_digits(value as nat);
    let mut i: usize = 0;
    while i < 32
        invariant
            i <= 32,
            idx == digits.len(),
            idx <= 16,
            digits == hex_digits(value as nat),
            forall|k: int| 0 <= k < idx ==> #[trigger] hex@[k] == digits[digits.len() - 1 - k],
            forall|k: int| 0 <= k < idx ==> #[trigger] hex@[k] != 0,
            forall|k: int| idx <= k < 32 ==> #[trigger] hex@[k] == 0,
            text@ == seq![0x0du8, 0x0au8, 0x30u8, 0x78u8] + digits.take(
                if i + idx <= 32 {
                    0
                } else {
                    i + idx - 32
                },
            ),
        decreases 32 - i,
    {
        if hex[31 - i] != 0 {
            text.push(hex[31 - i]);
            assert(digits.take(i + idx - 32 + 1) =~= digits.take(i + idx - 32).push(
                digits[i + idx - 32],
            ));
        }
        i += 1;
    }
    assert(digits.take(idx as int) =~= digits);
    text
}

} // verus!
