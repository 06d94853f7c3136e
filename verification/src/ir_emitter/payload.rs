//! The bytes to write to a documented control, from what the camera says it supports.
//!
//! Every structural contradiction is a refusal rather than a repair: nothing is written when the
//! camera has not clearly said what it accepts.
use vstd::prelude::*;
use crate::text::{decimal, hex_digits, hexadecimal, push_decimal, push_hex, push_hexadecimal};

verus! {

/// The modes of a streaming interface: general purpose (D0), alternative frame illumination (D1)
/// and background subtraction (D2).
pub const D1_ALTERNATIVE_ILLUMINATION: u8 = 0x02;

pub const D2_BACKGROUND_SUBTRACTION: u8 = 0x04;

/// The two face-authentication modes.
pub const FACE_AUTH_MODES: u8 = 0x06;

/// The bits that are no defined mode.
pub const UNDEFINED_FLAGS: u8 = 0xf8;

// ---------------------------------------------------------------------------------------------
// Face authentication
// ---------------------------------------------------------------------------------------------

/// Where an entry starts: behind one count byte come entries of two bytes each, a streaming
/// interface and its flags.
pub open spec fn entry_at(i: int) -> int {
    1 + 2 * i
}

/// Why two payloads cannot describe the control, before their entries are looked at.
pub open spec fn head_fault(def: Seq<u8>, max: Seq<u8>) -> Option<Seq<char>> {
    let len = max.len();
    if len != def.len() {
        Some(
            "its maximum is "@ + decimal(len) + " bytes and its default is "@ + decimal(def.len())
                + "; they describe the same control and must match"@,
        )
    } else if len < 3 || (len - 1) % 2 != 0 {
        Some("a "@ + decimal(len) + "-byte payload cannot hold whole entries"@)
    } else if max[0] == 0 {
        Some("it advertises no interface capable of face authentication"@)
    } else if max[0] > (len - 1) / 2 {
        Some(
            "it claims "@ + decimal(max[0] as nat) + " entries, which does not fit in "@ + decimal(
                len,
            ) + " bytes"@,
        )
    } else if def[0] > (len - 1) / 2 {
        Some("its default claims more entries than it can hold"@)
    } else if def[0] != max[0] {
        Some(
            "it lists "@ + decimal(max[0] as nat) + " interfaces at maximum but "@ + decimal(
                def[0] as nat,
            ) + " by default"@,
        )
    } else {
        None
    }
}

/// Whether an interface is listed among the entries before one.
pub open spec fn listed_before(max: Seq<u8>, interface: u8, i: int) -> bool {
    exists|j: int| 0 <= j < i && #[trigger] max[entry_at(j)] == interface
}

/// Whether flags name exactly one of the three defined modes.
pub open spec fn one_mode(flags: u8) -> bool {
    flags == 1 || flags == 2 || flags == 4
}

/// Why an entry cannot be driven.
pub open spec fn entry_fault(def: Seq<u8>, max: Seq<u8>, i: int) -> Option<Seq<char>> {
    let interface = max[entry_at(i)];
    let flags = max[entry_at(i) + 1];
    let modes = flags & FACE_AUTH_MODES;
    let default_flags = def[entry_at(i) + 1];
    if flags & UNDEFINED_FLAGS != 0 {
        Some(
            "interface "@ + decimal(interface as nat) + " advertises flags 0x"@ + hex_digits(
                flags as nat,
                2,
            ) + ", which sets bits the specification does not define"@,
        )
    } else if modes != D1_ALTERNATIVE_ILLUMINATION && modes != D2_BACKGROUND_SUBTRACTION {
        Some(
            "interface "@ + decimal(interface as nat) + " advertises 0x"@ + hex_digits(
                flags as nat,
                2,
            ) + ", which is not exactly one face-authentication mode"@,
        )
    } else if modes == D2_BACKGROUND_SUBTRACTION {
        Some(
            "interface "@ + decimal(interface as nat)
                + " offers only background subtraction (D2); irlume reads the alternating-illumination stream (D1) and will not select a mode it cannot interpret"@,
        )
    } else if listed_before(max, interface, i) {
        Some("interface "@ + decimal(interface as nat) + " is listed more than once"@)
    } else if def[entry_at(i)] != interface {
        Some(
            "its default names interface "@ + decimal(def[entry_at(i)] as nat)
                + " where its maximum names "@ + decimal(interface as nat),
        )
    } else if !one_mode(default_flags) {
        Some(
            "interface "@ + decimal(interface as nat) + " has a default mode of 0x"@ + hex_digits(
                default_flags as nat,
                2,
            ) + ", which is not one defined mode"@,
        )
    } else {
        None
    }
}

/// The first fault among the first `n` entries.
pub open spec fn first_entry_fault(def: Seq<u8>, max: Seq<u8>, n: int) -> Option<Seq<char>>
    decreases n,
{
    if n <= 0 {
        None
    } else if first_entry_fault(def, max, n - 1) is Some {
        first_entry_fault(def, max, n - 1)
    } else {
        entry_fault(def, max, n - 1)
    }
}

/// Whether bytes behind the entries are all zero.
pub open spec fn zero_from(bytes: Seq<u8>, from: int) -> bool {
    forall|k: int| from <= k < bytes.len() ==> #[trigger] bytes[k] == 0
}

/// The payload that selects alternative illumination for each listed interface, zero-padded.
pub open spec fn selection(max: Seq<u8>) -> Seq<u8> {
    Seq::new(
        max.len(),
        |k: int|
            if k == 0 {
                max[0]
            } else if k >= entry_at(max[0] as int) {
                0u8
            } else if k % 2 == 1 {
                max[k]
            } else {
                D1_ALTERNATIVE_ILLUMINATION
            },
    )
}

/// The face-authentication payload, or why the camera has not clearly said what it accepts.
pub open spec fn face_auth(def: Seq<u8>, max: Seq<u8>) -> Result<Seq<u8>, Seq<char>> {
    if head_fault(def, max) is Some {
        Err(head_fault(def, max)->0)
    } else if first_entry_fault(def, max, max[0] as int) is Some {
        Err(first_entry_fault(def, max, max[0] as int)->0)
    } else if !zero_from(max, entry_at(max[0] as int)) || !zero_from(
        def,
        entry_at(max[0] as int),
    ) {
        Err("it reports data past the interfaces it listed"@)
    } else {
        Ok(selection(max))
    }
}

fn head_refusal(def: &[u8], max: &[u8]) -> (r: Option<String>)
    ensures
        match r {
            Some(why) => head_fault(def@, max@) == Some(why@),
            None => head_fault(def@, max@) is None,
        },
{
    let len: usize = max.len();
    if len != def.len() {
        let mut s: String = "its maximum is ".to_owned();
        push_decimal(&mut s, len as u64);
        s.append(" bytes and its default is ");
        push_decimal(&mut s, def.len() as u64);
        s.append("; they describe the same control and must match");
        return Some(s);
    }
    if len < 3 || (len - 1) % 2 != 0 {
        let mut s: String = "a ".to_owned();
        push_decimal(&mut s, len as u64);
        s.append("-byte payload cannot hold whole entries");
        return Some(s);
    }
    let entries: usize = max[0] as usize;
    let capacity: usize = (len - 1) / 2;
    if entries == 0 {
        return Some("it advertises no interface capable of face authentication".to_owned());
    }
    if entries > capacity {
        let mut s: String = "it claims ".to_owned();
        push_decimal(&mut s, entries as u64);
        s.append(" entries, which does not fit in ");
        push_decimal(&mut s, len as u64);
        s.append(" bytes");
        return Some(s);
    }
    if def[0] as usize > capacity {
        return Some("its default claims more entries than it can hold".to_owned());
    }
    if def[0] != max[0] {
        let mut s: String = "it lists ".to_owned();
        push_decimal(&mut s, max[0] as u64);
        s.append(" interfaces at maximum but ");
        push_decimal(&mut s, def[0] as u64);
        s.append(" by default");
        return Some(s);
    }
    None
}

fn is_listed_before(max: &[u8], interface: u8, i: usize) -> (r: bool)
    requires
        entry_at(i as int) <= max@.len(),
        i <= 255,
    ensures
        r == listed_before(max@, interface, i as int),
{
    let mut j: usize = 0;
    while j < i
        invariant
            j <= i <= 255,
            entry_at(i as int) <= max@.len(),
            forall|k: int| 0 <= k < j ==> #[trigger] max@[entry_at(k)] != interface,
        decreases i - j,
    {
        if max[1 + 2 * j] == interface {
            assert(max@[entry_at(j as int)] == interface);
            return true;
        }
        j = j + 1;
    }
    false
}

fn entry_refusal(def: &[u8], max: &[u8], i: usize) -> (r: Option<String>)
    requires
        i < 255,
        entry_at(i as int) + 1 < max@.len(),
        def@.len() == max@.len(),
    ensures
        match r {
            Some(why) => entry_fault(def@, max@, i as int) == Some(why@),
            None => entry_fault(def@, max@, i as int) is None,
        },
{
    let at: usize = 1 + 2 * i;
    let interface: u8 = max[at];
    let flags: u8 = max[at + 1];
    if flags & UNDEFINED_FLAGS != 0 {
        let mut s: String = "interface ".to_owned();
        push_decimal(&mut s, interface as u64);
        s.append(" advertises flags 0x");
        push_hex(&mut s, flags as u128, 2);
        s.append(", which sets bits the specification does not define");
        return Some(s);
    }
    // The maximum lists only interfaces capable of D1 or D2, and no interface may be capable of
    // both.
    let modes: u8 = flags & FACE_AUTH_MODES;
    if modes != D1_ALTERNATIVE_ILLUMINATION && modes != D2_BACKGROUND_SUBTRACTION {
        let mut s: String = "interface ".to_owned();
        push_decimal(&mut s, interface as u64);
        s.append(" advertises 0x");
        push_hex(&mut s, flags as u128, 2);
        s.append(", which is not exactly one face-authentication mode");
        return Some(s);
    }
    // Selecting background subtraction would produce a stream that nothing here can read.
    if modes == D2_BACKGROUND_SUBTRACTION {
        let mut s: String = "interface ".to_owned();
        push_decimal(&mut s, interface as u64);
        s.append(
            " offers only background subtraction (D2); irlume reads the alternating-illumination stream (D1) and will not select a mode it cannot interpret",
        );
        return Some(s);
    }
    if is_listed_before(max, interface, i) {
        let mut s: String = "interface ".to_owned();
        push_decimal(&mut s, interface as u64);
        s.append(" is listed more than once");
        return Some(s);
    }
    if def[at] != interface {
        let mut s: String = "its default names interface ".to_owned();
        push_decimal(&mut s, def[at] as u64);
        s.append(" where its maximum names ");
        push_decimal(&mut s, interface as u64);
        return Some(s);
    }
    let default_flags: u8 = def[at + 1];
    if default_flags != 1 && default_flags != 2 && default_flags != 4 {
        let mut s: String = "interface ".to_owned();
        push_decimal(&mut s, interface as u64);
        s.append(" has a default mode of 0x");
        push_hex(&mut s, default_flags as u128, 2);
        s.append(", which is not one defined mode");
        return Some(s);
    }
    None
}

fn is_zero_from(bytes: &[u8], from: usize) -> (r: bool)
    requires
        from <= bytes@.len(),
    ensures
        r == zero_from(bytes@, from as int),
{
    let mut k: usize = from;
    while k < bytes.len()
        invariant
            from <= k <= bytes@.len(),
            forall|j: int| from <= j < k ==> #[trigger] bytes@[j] == 0,
        decreases bytes@.len() - k,
    {
        if bytes[k] != 0 {
            return false;
        }
        k = k + 1;
    }
    true
}

fn selected(max: &[u8]) -> (r: Vec<u8>)
    requires
        max@.len() > 0,
    ensures
        r@ == selection(max@),
{
    let tail: usize = 1 + 2 * max[0] as usize;
    let mut out: Vec<u8> = Vec::new();
    let mut k: usize = 0;
    while k < max.len()
        invariant
            k <= max@.len(),
            tail == entry_at(max@[0] as int),
            out@ == selection(max@).take(k as int),
        decreases max@.len() - k,
    {
        let b: u8 = if k == 0 {
            max[0]
        } else if k >= tail {
            0
        } else if k % 2 == 1 {
            max[k]
        } else {
            D1_ALTERNATIVE_ILLUMINATION
        };
        out.push(b);
        k = k + 1;
        assert(out@ =~= selection(max@).take(k as int));
    }
    assert(out@ =~= selection(max@));
    out
}

/// Builds a face-authentication payload from what the camera says it supports.
///
/// The maximum is defined to list all and only the streaming interfaces capable of a
/// face-authentication mode; for each of them this selects the alternating-illumination mode. The
/// default cannot be used as it is: an interface that is also usable for general-purpose capture
/// defaults to that, and the illuminator stays dark.
pub fn face_auth_payload(def: &[u8], max: &[u8]) -> (r: Result<Vec<u8>, String>)
    ensures
        match r {
            Ok(payload) => face_auth(def@, max@) == Ok::<Seq<u8>, Seq<char>>(payload@),
            Err(why) => face_auth(def@, max@) == Err::<Seq<u8>, Seq<char>>(why@),
        },
{
    if let Some(why) = head_refusal(def, max) {
        return Err(why);
    }
    let entries: usize = max[0] as usize;
    let mut i: usize = 0;
    while i < entries
        invariant
            i <= entries <= 255,
            entries == max@[0],
            head_fault(def@, max@) is None,
            first_entry_fault(def@, max@, i as int) is None,
        decreases entries - i,
    {
        if let Some(why) = entry_refusal(def, max, i) {
            proof {
                fault_comes_first(def@, max@, i as int + 1, entries as int);
            }
            return Err(why);
        }
        i = i + 1;
    }
    // Bytes past the entries are not described by anything.
    let tail: usize = 1 + 2 * entries;
    if !is_zero_from(max, tail) || !is_zero_from(def, tail) {
        return Err("it reports data past the interfaces it listed".to_owned());
    }
    Ok(selected(max))
}

/// Once there is a fault among the first entries, further entries do not change it.
proof fn fault_comes_first(def: Seq<u8>, max: Seq<u8>, n: int, m: int)
    requires
        n <= m,
        first_entry_fault(def, max, n) is Some,
    ensures
        first_entry_fault(def, max, m) == first_entry_fault(def, max, n),
    decreases m - n,
{
    if n < m {
        fault_comes_first(def, max, n, m - 1);
    }
}

// ---------------------------------------------------------------------------------------------
// Infrared torch
// ---------------------------------------------------------------------------------------------

/// The length of an infrared-torch value: a mode and a power level, four bytes each.
pub const IR_TORCH_LEN: usize = 8;

pub const MODE_OFF_BIT: u32 = 1;

pub const MODE_ON: u32 = 2;

pub const MODE_ALTERNATING: u32 = 4;

/// The bits that are no defined mode.
pub const UNDEFINED_MODES: u32 = 0xffff_fff8;

/// The number in four bytes, the lowest first.
pub open spec fn dword(b: Seq<u8>, at: int) -> int {
    b[at] + 0x100 * b[at + 1] + 0x1_0000 * b[at + 2] + 0x100_0000 * b[at + 3]
}

fn read_dword(b: &[u8], at: usize) -> (r: u32)
    requires
        at + 4 <= b@.len(),
    ensures
        r == dword(b@, at as int),
{
    b[at] as u32 + 0x100 * b[at + 1] as u32 + 0x1_0000 * b[at + 2] as u32 + 0x100_0000 * b[at
        + 3] as u32
}

/// Why a value is not as long as the control is defined.
pub open spec fn length_fault(name: Seq<char>, value: Seq<u8>) -> Option<Seq<char>> {
    if value.len() != IR_TORCH_LEN {
        Some(
            "the camera reported an "@ + name + " of "@ + decimal(value.len())
                + " bytes; IR Torch is defined as 8"@,
        )
    } else {
        None
    }
}

fn length_refusal(name: &str, value: &[u8]) -> (r: Option<String>)
    ensures
        match r {
            Some(why) => length_fault(name@, value@) == Some(why@),
            None => length_fault(name@, value@) is None,
        },
{
    if value.len() != IR_TORCH_LEN {
        let mut s: String = "the camera reported an ".to_owned();
        s.append(name);
        s.append(" of ");
        push_decimal(&mut s, value.len() as u64);
        s.append(" bytes; IR Torch is defined as 8");
        Some(s)
    } else {
        None
    }
}

/// Why the modes that are reported contradict the control's definition.
pub open spec fn mode_fault(def_mode: u32, min_mode: u32, max_mode: u32) -> Option<Seq<char>> {
    if def_mode != MODE_ON && def_mode != MODE_ALTERNATING {
        Some(
            "its default mode is "@ + decimal(def_mode as nat)
                + ", and the specification requires 2 (on) or 4 (alternating)"@,
        )
    } else if max_mode & MODE_OFF_BIT == 0 {
        Some("the camera does not report the off mode, so its capabilities are malformed"@)
    } else if max_mode & UNDEFINED_MODES != 0 {
        Some(
            "its capability bitmap 0x"@ + hexadecimal(max_mode as nat)
                + " sets bits the specification does not define"@,
        )
    } else if min_mode != 0 {
        Some(
            "its reported minimum mode is "@ + decimal(min_mode as nat)
                + ", and the specification requires 0"@,
        )
    } else if max_mode & def_mode == 0 {
        Some(
            "its default mode "@ + decimal(def_mode as nat)
                + " is not among the modes it says it supports (0x"@ + hexadecimal(max_mode as nat)
                + ")"@,
        )
    } else {
        None
    }
}

fn mode_refusal(def_mode: u32, min_mode: u32, max_mode: u32) -> (r: Option<String>)
    ensures
        match r {
            Some(why) => mode_fault(def_mode, min_mode, max_mode) == Some(why@),
            None => mode_fault(def_mode, min_mode, max_mode) is None,
        },
{
    if def_mode != MODE_ON && def_mode != MODE_ALTERNATING {
        let mut s: String = "its default mode is ".to_owned();
        push_decimal(&mut s, def_mode as u64);
        s.append(", and the specification requires 2 (on) or 4 (alternating)");
        return Some(s);
    }
    if max_mode & MODE_OFF_BIT == 0 {
        return Some(
            "the camera does not report the off mode, so its capabilities are malformed".to_owned(),
        );
    }
    if max_mode & UNDEFINED_MODES != 0 {
        let mut s: String = "its capability bitmap 0x".to_owned();
        push_hexadecimal(&mut s, max_mode as u64);
        s.append(" sets bits the specification does not define");
        return Some(s);
    }
    if min_mode != 0 {
        let mut s: String = "its reported minimum mode is ".to_owned();
        push_decimal(&mut s, min_mode as u64);
        s.append(", and the specification requires 0");
        return Some(s);
    }
    if max_mode & def_mode == 0 {
        let mut s: String = "its default mode ".to_owned();
        push_decimal(&mut s, def_mode as u64);
        s.append(" is not among the modes it says it supports (0x");
        push_hexadecimal(&mut s, max_mode as u64);
        s.append(")");
        return Some(s);
    }
    None
}

/// Why the reported power levels contradict each other.
pub open spec fn power_fault(default: u32, min: u32, max: u32, res_mode: u32, step: u32) -> Option<
    Seq<char>,
> {
    if min > max {
        Some(
            "its reported power range is inverted ("@ + decimal(min as nat) + " to "@ + decimal(
                max as nat,
            ) + ")"@,
        )
    } else if default < min || default > max {
        Some(
            "its default power "@ + decimal(default as nat) + " is outside the range it reports ("@
                + decimal(min as nat) + " to "@ + decimal(max as nat) + ")"@,
        )
    } else if res_mode != 0 {
        Some(
            "its reported resolution mode is "@ + decimal(res_mode as nat)
                + ", and the specification requires 0"@,
        )
    } else if step == 0 {
        Some("it reports a power step of zero, which the specification forbids"@)
    } else if (max - min) % (step as int) != 0 {
        Some(
            "its power range "@ + decimal(min as nat) + " to "@ + decimal(max as nat)
                + " does not divide evenly by its step "@ + decimal(step as nat),
        )
    } else if (default - min) % (step as int) != 0 {
        Some(
            "its default power "@ + decimal(default as nat)
                + " does not sit on its own step grid of "@ + decimal(step as nat),
        )
    } else {
        None
    }
}

fn power_refusal(default: u32, min: u32, max: u32, res_mode: u32, step: u32) -> (r: Option<String>)
    ensures
        match r {
            Some(why) => power_fault(default, min, max, res_mode, step) == Some(why@),
            None => power_fault(default, min, max, res_mode, step) is None,
        },
{
    if min > max {
        let mut s: String = "its reported power range is inverted (".to_owned();
        push_decimal(&mut s, min as u64);
        s.append(" to ");
        push_decimal(&mut s, max as u64);
        s.append(")");
        return Some(s);
    }
    if default < min || default > max {
        let mut s: String = "its default power ".to_owned();
        push_decimal(&mut s, default as u64);
        s.append(" is outside the range it reports (");
        push_decimal(&mut s, min as u64);
        s.append(" to ");
        push_decimal(&mut s, max as u64);
        s.append(")");
        return Some(s);
    }
    if res_mode != 0 {
        let mut s: String = "its reported resolution mode is ".to_owned();
        push_decimal(&mut s, res_mode as u64);
        s.append(", and the specification requires 0");
        return Some(s);
    }
    if step == 0 {
        return Some("it reports a power step of zero, which the specification forbids".to_owned());
    }
    if (max - min) % step != 0 {
        let mut s: String = "its power range ".to_owned();
        push_decimal(&mut s, min as u64);
        s.append(" to ");
        push_decimal(&mut s, max as u64);
        s.append(" does not divide evenly by its step ");
        push_decimal(&mut s, step as u64);
        return Some(s);
    }
    if (default - min) % step != 0 {
        let mut s: String = "its default power ".to_owned();
        push_decimal(&mut s, default as u64);
        s.append(" does not sit on its own step grid of ");
        push_decimal(&mut s, step as u64);
        return Some(s);
    }
    None
}

/// Why an infrared-torch default may not be written back, if it may not.
pub open spec fn torch_fault(
    def: Seq<u8>,
    min: Seq<u8>,
    max: Seq<u8>,
    res: Seq<u8>,
) -> Option<Seq<char>> {
    if length_fault("default"@, def) is Some {
        length_fault("default"@, def)
    } else if length_fault("minimum"@, min) is Some {
        length_fault("minimum"@, min)
    } else if length_fault("maximum"@, max) is Some {
        length_fault("maximum"@, max)
    } else if length_fault("resolution"@, res) is Some {
        length_fault("resolution"@, res)
    } else if mode_fault(
        dword(def, 0) as u32,
        dword(min, 0) as u32,
        dword(max, 0) as u32,
    ) is Some {
        mode_fault(dword(def, 0) as u32, dword(min, 0) as u32, dword(max, 0) as u32)
    } else {
        power_fault(
            dword(def, 4) as u32,
            dword(min, 4) as u32,
            dword(max, 4) as u32,
            dword(res, 0) as u32,
            dword(res, 4) as u32,
        )
    }
}

/// Whether an infrared-torch default is one that may be written back.
///
/// This control is pinned down completely, so the value is checked rather than
/// trusted: the payload is a mode and a power level; the default's mode must be an active one that
/// the capability bitmap claims; and the level must sit on the reported grid.
pub fn ir_torch_default_is_usable(def: &[u8], min: &[u8], max: &[u8], res: &[u8]) -> (r: Result<
    (),
    String,
>)
    ensures
        match r {
            Ok(()) => torch_fault(def@, min@, max@, res@) is None,
            Err(why) => torch_fault(def@, min@, max@, res@) == Some(why@),
        },
{
    if let Some(why) = length_refusal("default", def) {
        return Err(why);
    }
    if let Some(why) = length_refusal("minimum", min) {
        return Err(why);
    }
    if let Some(why) = length_refusal("maximum", max) {
        return Err(why);
    }
    if let Some(why) = length_refusal("resolution", res) {
        return Err(why);
    }
    if let Some(why) = mode_refusal(read_dword(def, 0), read_dword(min, 0), read_dword(max, 0)) {
        return Err(why);
    }
    match power_refusal(
        read_dword(def, 4),
        read_dword(min, 4),
        read_dword(max, 4),
        read_dword(res, 0),
        read_dword(res, 4),
    ) {
        Some(why) => Err(why),
        None => Ok(()),
    }
}

// ---------------------------------------------------------------------------------------------
// Laws
// ---------------------------------------------------------------------------------------------

/// Every entry of an accepted pair of answers is without fault.
proof fn no_entry_fault(def: Seq<u8>, max: Seq<u8>, n: int, i: int)
    requires
        first_entry_fault(def, max, n) is None,
        0 <= i < n,
    ensures
        entry_fault(def, max, i) is None,
    decreases n,
{
    if i < n - 1 {
        no_entry_fault(def, max, n - 1, i);
    }
}

/// A face-authentication payload names exactly the interfaces that the camera listed, in the
/// camera's order and none of them twice; it sets for each the one mode D1, which the camera
/// advertised for it; and every other byte is zero.
pub proof fn payload_selects_what_the_camera_lists(def: Seq<u8>, max: Seq<u8>, out: Seq<u8>)
    requires
        face_auth(def, max) == Ok::<Seq<u8>, Seq<char>>(out),
    ensures
        out.len() == max.len(),
        out[0] == max[0],
        max[0] > 0,
        entry_at(max[0] as int) <= max.len(),
        forall|i: int|
            0 <= i < max[0] ==> {
                &&& #[trigger] out[entry_at(i)] == max[entry_at(i)]
                &&& out[entry_at(i)] == def[entry_at(i)]
                &&& out[entry_at(i) + 1] == D1_ALTERNATIVE_ILLUMINATION
                &&& max[entry_at(i) + 1] & D1_ALTERNATIVE_ILLUMINATION != 0
                &&& max[entry_at(i) + 1] & D2_BACKGROUND_SUBTRACTION == 0
            },
        forall|i: int, j: int|
            0 <= i < j < max[0] ==> #[trigger] out[entry_at(i)] != #[trigger] out[entry_at(j)],
        forall|k: int| entry_at(max[0] as int) <= k < out.len() ==> #[trigger] out[k] == 0,
{
    let n = max[0] as int;
    assert forall|i: int| 0 <= i < n implies {
        &&& #[trigger] out[entry_at(i)] == max[entry_at(i)]
        &&& out[entry_at(i)] == def[entry_at(i)]
        &&& out[entry_at(i) + 1] == D1_ALTERNATIVE_ILLUMINATION
        &&& max[entry_at(i) + 1] & D1_ALTERNATIVE_ILLUMINATION != 0
        &&& max[entry_at(i) + 1] & D2_BACKGROUND_SUBTRACTION == 0
    } by {
        no_entry_fault(def, max, n, i);
        let flags = max[entry_at(i) + 1];
        assert(flags & 0x06u8 == 0x02u8 ==> flags & 0x02u8 != 0 && flags & 0x04u8 == 0)
            by (bit_vector);
    }
    assert forall|i: int, j: int| 0 <= i < j < n implies #[trigger] out[entry_at(i)]
        != #[trigger] out[entry_at(j)] by {
        no_entry_fault(def, max, n, j);
        assert(max[entry_at(i)] == out[entry_at(i)]);
        assert(max[entry_at(j)] == out[entry_at(j)]);
    }
}

/// An infrared-torch default that may be written back lights the lamp, in a mode and at a power
/// that the camera says it supports.
pub proof fn usable_default_is_an_active_mode(
    def: Seq<u8>,
    min: Seq<u8>,
    max: Seq<u8>,
    res: Seq<u8>,
)
    requires
        torch_fault(def, min, max, res) is None,
    ensures
        def.len() == IR_TORCH_LEN,
        dword(def, 0) == MODE_ON || dword(def, 0) == MODE_ALTERNATING,
        (dword(max, 0) as u32) & (dword(def, 0) as u32) != 0,
        dword(min, 4) <= dword(def, 4) <= dword(max, 4),
        dword(res, 4) > 0,
        (dword(def, 4) - dword(min, 4)) % dword(res, 4) == 0,
{
}

/// Whether an entry is as the face-authentication control is defined: for an interface that both
/// answers name and no earlier entry does, able of alternating illumination and of no undefined
/// mode, and with one defined default.
pub open spec fn clear_entry(def: Seq<u8>, max: Seq<u8>, i: int) -> bool {
    &&& max[2 + 2 * i] == 0x02 || max[2 + 2 * i] == 0x03
    &&& def[1 + 2 * i] == max[1 + 2 * i]
    &&& def[2 + 2 * i] == 1 || def[2 + 2 * i] == 2 || def[2 + 2 * i] == 4
    &&& forall|j: int| 0 <= j < i ==> #[trigger] max[1 + 2 * j] != max[1 + 2 * i]
}

/// Whether every entry that is listed is as the control is defined.
pub open spec fn clear_entries(def: Seq<u8>, max: Seq<u8>) -> bool {
    forall|i: int| 0 <= i < max[0] ==> #[trigger] clear_entry(def, max, i)
}

proof fn clear_entries_have_no_fault(def: Seq<u8>, max: Seq<u8>, n: int)
    requires
        n <= max[0],
        clear_entries(def, max),
    ensures
        first_entry_fault(def, max, n) is None,
    decreases n,
{
    if n > 0 {
        clear_entries_have_no_fault(def, max, n - 1);
        let i = n - 1;
        let flags = max[2 + 2 * i];
        assert(clear_entry(def, max, i));
        assert((flags == 2u8 || flags == 3u8) ==> flags & 0xf8u8 == 0 && flags & 0x06u8 == 0x02u8)
            by (bit_vector);
        if listed_before(max, max[entry_at(i)], i) {
            let j = choose|j: int|
                0 <= j < i && #[trigger] max[entry_at(j)] == max[entry_at(i)];
            assert(max[1 + 2 * j] == max[1 + 2 * i]);
        }
    }
}

/// A camera that clearly says what its face-authentication control accepts is taken at its word:
/// answers of one odd length that both list the same interfaces, all of them able of alternating
/// illumination, with nothing behind them, give a payload.
pub proof fn a_clear_camera_is_taken_at_its_word(def: Seq<u8>, max: Seq<u8>)
    requires
        max.len() == def.len(),
        max.len() % 2 == 1,
        0 < max[0] <= (max.len() - 1) / 2,
        def[0] == max[0],
        clear_entries(def, max),
        forall|k: int| 1 + 2 * max[0] <= k < max.len() ==> #[trigger] max[k] == 0,
        forall|k: int| 1 + 2 * max[0] <= k < def.len() ==> #[trigger] def[k] == 0,
    ensures
        face_auth(def, max) is Ok,
{
    clear_entries_have_no_fault(def, max, max[0] as int);
}

/// A camera that does not is refused: answers of two lengths or without whole entries, with no
/// entry or more than fit, with different numbers of entries, with an entry that is not clear, or
/// with anything behind the entries.
pub proof fn an_unclear_camera_is_refused(def: Seq<u8>, max: Seq<u8>)
    requires
        face_auth(def, max) is Ok,
    ensures
        max.len() == def.len(),
        max.len() >= 3,
        max.len() % 2 == 1,
        0 < max[0] <= (max.len() - 1) / 2,
        def[0] == max[0],
        clear_entries(def, max),
        forall|k: int| 1 + 2 * max[0] <= k < max.len() ==> #[trigger] max[k] == 0,
        forall|k: int| 1 + 2 * max[0] <= k < def.len() ==> #[trigger] def[k] == 0,
{
    let n = max[0] as int;
    assert(zero_from(max, entry_at(n)) && zero_from(def, entry_at(n)));
    assert forall|i: int| 0 <= i < n implies #[trigger] clear_entry(def, max, i) by {
        no_entry_fault(def, max, n, i);
        let flags = max[2 + 2 * i];
        assert(flags & 0xf8u8 == 0 && flags & 0x06u8 == 0x02u8 ==> flags == 2u8 || flags == 3u8)
            by (bit_vector);
        assert forall|j: int| 0 <= j < i implies #[trigger] max[1 + 2 * j] != max[1 + 2 * i] by {
            assert(max[entry_at(j)] == max[1 + 2 * j]);
        }
    }
}

/// The face-authentication payload is the camera's list with the one mode 2 for each interface, and
/// nothing behind it.
pub proof fn the_payload_sets_mode_two_for_each_interface(def: Seq<u8>, max: Seq<u8>, k: int)
    requires
        face_auth(def, max) is Ok,
        0 <= k < max.len(),
    ensures
        face_auth(def, max)->Ok_0.len() == max.len(),
        k == 0 || (k % 2 == 1 && k < 1 + 2 * max[0]) ==> face_auth(def, max)->Ok_0[k] == max[k],
        k > 0 && k % 2 == 0 && k < 1 + 2 * max[0] ==> face_auth(def, max)->Ok_0[k] == 2,
        k >= 1 + 2 * max[0] ==> face_auth(def, max)->Ok_0[k] == 0,
{
}

/// An infrared torch whose four answers are eight bytes each and agree with the control's definition
/// may be given its own default back: an active mode that is listed with the off mode and nothing
/// undefined, and a power on the grid that the camera reports. Nothing less may.
pub proof fn a_torch_that_follows_its_definition_is_usable(
    def: Seq<u8>,
    min: Seq<u8>,
    max: Seq<u8>,
    res: Seq<u8>,
)
    ensures
        torch_fault(def, min, max, res) is None <==> {
            &&& def.len() == 8
            &&& min.len() == 8
            &&& max.len() == 8
            &&& res.len() == 8
            &&& dword(min, 0) == 0
            &&& dword(res, 0) == 0
            &&& dword(def, 0) == 2 && (dword(max, 0) == 3 || dword(max, 0) == 7) || dword(def, 0)
                == 4 && (dword(max, 0) == 5 || dword(max, 0) == 7)
            &&& dword(min, 4) <= dword(def, 4)
            &&& dword(def, 4) <= dword(max, 4)
            &&& dword(res, 4) > 0
            &&& (dword(max, 4) - dword(min, 4)) % dword(res, 4) == 0
            &&& (dword(def, 4) - dword(min, 4)) % dword(res, 4) == 0
        },
{
    let modes = dword(max, 0) as u32;
    assert(modes & 0xffff_fff8u32 == 0 <==> modes <= 7) by (bit_vector);
    assert(modes <= 7 ==> ((modes & 1u32 != 0 && modes & 2u32 != 0) <==> (modes == 3 || modes
        == 7))) by (bit_vector);
    assert(modes <= 7 ==> ((modes & 1u32 != 0 && modes & 4u32 != 0) <==> (modes == 5 || modes
        == 7))) by (bit_vector);
    assert(modes == 3 || modes == 5 || modes == 7 ==> modes & 0xffff_fff8u32 == 0) by (bit_vector);
}

} // verus!
