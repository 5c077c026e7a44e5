//! The diagnostic lines the loading sequence produces: one informational
//! line naming the winning module and the resolver address on success,
//! one error line on failure. Addresses are rendered in lowercase
//! hexadecimal with no leading zeros.

use vstd::prelude::*;
use vstd::string::StringExecFns;

verus! {

/// The lowercase hexadecimal digit for a value below sixteen.
pub open spec fn hex_digit(d: int) -> char {
    if d == 0 {
        '0'
    } else if d == 1 {
        '1'
    } else if d == 2 {
        '2'
    } else if d == 3 {
        '3'
    } else if d == 4 {
        '4'
    } else if d == 5 {
        '5'
    } else if d == 6 {
        '6'
    } else if d == 7 {
        '7'
    } else if d == 8 {
        '8'
    } else if d == 9 {
        '9'
    } else if d == 10 {
        'a'
    } else if d == 11 {
        'b'
    } else if d == 12 {
        'c'
    } else if d == 13 {
        'd'
    } else if d == 14 {
        'e'
    } else {
        'f'
    }
}

/// The lowercase hexadecimal rendering of `x`, most significant digit
/// first, with no leading zeros (`0` renders as `"0"`).
pub open spec fn hex_seq(x: nat) -> Seq<char>
    decreases x,
{
    if x < 16 {
        seq![hex_digit(x as int)]
    } else {
        hex_seq(x / 16).push(hex_digit((x % 16) as int))
    }
}

/// One hexadecimal digit as a string slice.
fn hex_digit_str(d: u64) -> (r: &'static str)
    requires
        d < 16,
    ensures
        r@ == seq![hex_digit(d as int)],
{
    let r: &'static str = match d {
        0 => "0",
        1 => "1",
        2 => "2",
        3 => "3",
        4 => "4",
        5 => "5",
        6 => "6",
        7 => "7",
        8 => "8",
        9 => "9",
        10 => "a",
        11 => "b",
        12 => "c",
        13 => "d",
        14 => "e",
        _ => "f",
    };
    proof {
        reveal_strlit("0");
        reveal_strlit("1");
        reveal_strlit("2");
        reveal_strlit("3");
        reveal_strlit("4");
        reveal_strlit("5");
        reveal_strlit("6");
        reveal_strlit("7");
        reveal_strlit("8");
        reveal_strlit("9");
        reveal_strlit("a");
        reveal_strlit("b");
        reveal_strlit("c");
        reveal_strlit("d");
        reveal_strlit("e");
        reveal_strlit("f");
        assert(r@ =~= seq![hex_digit(d as int)]);
    }
    r
}

/// Renders `x` in lowercase hexadecimal.
pub fn hex_string(x: u64) -> (r: String)
    ensures
        r@ == hex_seq(x as nat),
    decreases x,
{
    if x < 16 {
        hex_digit_str(x).to_owned()
    } else {
        let mut s = hex_string(x / 16);
        s.append(hex_digit_str(x % 16));
        proof {
            assert(s@ =~= hex_seq(x as nat));
        }
        s
    }
}

/// The informational line logged when a candidate module yields the
/// global resolver: the module's name and the resolver's address.
pub open spec fn spec_found_line(name: Seq<char>, resolver: u64) -> Seq<char> {
    "Vulkan: Found vkGetInstanceProcAddr in "@ + name + " @ 0x"@ + hex_seq(resolver as nat)
}

/// The error line logged when no candidate yields the resolver.
pub open spec fn spec_not_found_line() -> Seq<char> {
    "Vulkan: vkGetInstanceProcAddr not found"@
}

/// Builds the informational success line.
pub fn found_line(name: &str, resolver: u64) -> (r: String)
    ensures
        r@ == spec_found_line(name@, resolver),
{
    let mut s = "Vulkan: Found vkGetInstanceProcAddr in ".to_owned();
    s.append(name);
    s.append(" @ 0x");
    let hex = hex_string(resolver);
    s.append(hex.as_str());
    s
}

/// Builds the error line.
pub fn not_found_line() -> (r: String)
    ensures
        r@ == spec_not_found_line(),
{
    "Vulkan: vkGetInstanceProcAddr not found".to_owned()
}

} // verus!
