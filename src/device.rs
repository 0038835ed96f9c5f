use vstd::prelude::*;

verus! {

/// Descriptive metadata of a connected pointer device.
#[derive(Debug, Clone)]
pub struct Mouse {
    pub id: String,
    pub vender_id: u16,
    pub product_id: u16,
    pub product: String,
    pub manufacturer: String,
}

/// Keyboards carry the same descriptive record as pointer devices.
pub type Keyboard = Mouse;

impl Mouse {
    /// A copy of the record, field for field.
    pub fn duplicate(&self) -> (r: Mouse)
        ensures
            r == *self,
    {
        Mouse {
            id: self.id.clone(),
            vender_id: self.vender_id,
            product_id: self.product_id,
            product: self.product.clone(),
            manufacturer: self.manufacturer.clone(),
        }
    }
}

/// The primary usage code of a mouse or trackpad.
pub const USAGE_MOUSE: u16 = 0x02;

/// The primary usage code of a keyboard.
pub const USAGE_KEYBOARD: u16 = 0x06;

/// The (usage page, usage) pairs of the devices that a session asks the
/// subsystem for: the vendor-defined page of multitouch pointer devices.
pub fn device_filters() -> (r: Vec<(u16, Option<u16>)>)
    ensures
        r@ == seq![(0xFF00u16, Some(0x0Cu16))],
{
    let mut r: Vec<(u16, Option<u16>)> = Vec::new();
    r.push((0xFF00, Some(0x0C)));
    r
}

/// The lower-case hexadecimal digit of `d`, for `d < 16`.
pub open spec fn hex_digit(d: nat) -> char {
    if d < 10 {
        ('0' as u8 + d) as char
    } else {
        ('a' as u8 + (d - 10)) as char
    }
}

/// `n` in lower-case hexadecimal, most significant digit first, without
/// leading zeros (`0` is one digit).
pub open spec fn hex_digits(n: nat) -> Seq<char>
    decreases n,
{
    if n < 16 {
        seq![hex_digit(n)]
    } else {
        hex_digits(n / 16) + seq![hex_digit(n % 16)]
    }
}

/// The identifier of the device behind native handle `handle`: `0x` and the
/// handle in hexadecimal.
pub open spec fn device_id_spec(handle: nat) -> Seq<char> {
    seq!['0', 'x'] + hex_digits(handle)
}

fn hex_digit_str(d: u64) -> (r: &'static str)
    requires
        d < 16,
    ensures
        r@ == seq![hex_digit(d as nat)],
{
    proof {
        reveal_strlit("0");
        reveal_strlit("1");
        reveal_strlit("2");
        reveal_strlit("3");
        reveal_strlit("4");
        reveal_strlit("5");
        reveal_strlit("6");
        reveal_strlit("7");
        reveal_strlit("8");
        reveal_strlit("9");
        reveal_strlit("a");
        reveal_strlit("b");
        reveal_strlit("c");
        reveal_strlit("d");
        reveal_strlit("e");
        reveal_strlit("f");
    }
    match d {
        0 => "0",
        1 => "1",
        2 => "2",
        3 => "3",
        4 => "4",
        5 => "5",
        6 => "6",
        7 => "7",
        8 => "8",
        9 => "9",
        10 => "a",
        11 => "b",
        12 => "c",
        13 => "d",
        14 => "e",
        _ => "f",
    }
}

fn append_hex(s: &mut String, n: u64)
    ensures
        final(s)@ == old(s)@ + hex_digits(n as nat),
    decreases n,
{
    if n >= 16 {
        append_hex(s, n / 16);
    }
    s.append(hex_digit_str(n % 16));
    proof {
        if n >= 16 {
            assert(old(s)@ + hex_digits(n as nat) == old(s)@ + hex_digits((n / 16) as nat) + seq![
                hex_digit((n % 16) as nat),
            ]);
        }
    }
}

/// The identifier of the device behind native handle `handle`, as
/// `device_id_spec` gives it. The same handle always gives the same text.
pub fn device_id(handle: u64) -> (r: String)
    ensures
        r@ == device_id_spec(handle as nat),
{
    let mut s = String::new();
    proof {
        reveal_strlit("0x");
    }
    s.append("0x");
    append_hex(&mut s, handle);
    s
}

} // verus!
