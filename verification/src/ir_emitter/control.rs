//! Naming a control: the forms in which one is written down, and where one is taken from.
use vstd::prelude::*;
use crate::ir_emitter::descriptor::{
    first_microsoft, CameraIdentity, MSXU_FACE_AUTHENTICATION, MSXU_IR_TORCH,
};
use crate::text::{
    chars_of, copy_range, debug_quoted, decimal, decimal_is_a_number, decimal_list,
    digit_value_of_char, field_views, find, first_index, first_index_at_separator,
    first_index_bounds, hex_digits, hex_digits_are_solid, lower, number, push_decimal,
    push_decimal_list, quoted, read_number, same_but_for_case, same_ignoring_case, split,
    split_at_separator, split_on, split_without_separator, text_of, trim, trimmed,
    trimmed_leaves_solid_text, white_space,
};

verus! {

/// A control of a camera and the bytes to put there.
#[derive(Clone, Debug, PartialEq, Eq)]
pub struct EmitterControl {
    pub unit: u8,
    pub selector: u8,
    pub payload: Vec<u8>,
}

/// A control and its bytes, as values.
pub struct ControlView {
    pub unit: u8,
    pub selector: u8,
    pub payload: Seq<u8>,
}

impl View for EmitterControl {
    type V = ControlView;

    open spec fn view(&self) -> ControlView {
        ControlView { unit: self.unit, selector: self.selector, payload: self.payload@ }
    }
}

impl ControlView {
    /// The form `unit:selector:b,b,...`, all in decimal.
    pub open spec fn encoded(self) -> Seq<char> {
        decimal(self.unit as nat) + ":"@ + decimal(self.selector as nat) + ":"@ + decimal_list(
            self.payload,
            ","@,
        )
    }
}

impl EmitterControl {
    /// The form `unit:selector:b,b,...`, all in decimal.
    #[must_use]
    pub fn encode(&self) -> (r: String)
        ensures
            r@ == self@.encoded(),
    {
        let mut s: String = "".to_owned();
        proof {
            reveal_strlit("");
        }
        push_decimal(&mut s, self.unit as u64);
        assert(s@ =~= decimal(self.unit as nat));
        s.append(":");
        push_decimal(&mut s, self.selector as u64);
        s.append(":");
        push_decimal_list(&mut s, self.payload.as_slice(), ",");
        s
    }

    /// A copy with the same bytes.
    pub(crate) fn copied(&self) -> (r: Self)
        ensures
            r@ == self@,
    {
        EmitterControl {
            unit: self.unit,
            selector: self.selector,
            payload: crate::text::copy_bytes(self.payload.as_slice()),
        }
    }
}

// ---------------------------------------------------------------------------------------------
// Reading
// ---------------------------------------------------------------------------------------------

/// The number that digits of a base write, after a plus sign or none.
pub open spec fn unsigned(s: Seq<char>, base: int) -> Option<int> {
    let digits = if s.len() > 0 && s[0] == '+' {
        s.skip(1)
    } else {
        s
    };
    if digits.len() == 0 {
        None
    } else {
        number(digits, base)
    }
}

/// Whether a text starts with `0x`, of either case.
pub open spec fn has_hex_prefix(s: Seq<char>) -> bool {
    s.len() >= 2 && s[0] == '0' && (s[1] == 'x' || s[1] == 'X')
}

/// The byte that a text writes in decimal, or in hexadecimal behind `0x`; white space round it
/// does not matter.
pub open spec fn byte(s: Seq<char>) -> Option<u8> {
    let t = trimmed(s);
    let value = if has_hex_prefix(t) {
        unsigned(t.skip(2), 16)
    } else {
        unsigned(t, 10)
    };
    match value {
        Some(v) => if 0 <= v <= 255 {
            Some(v as u8)
        } else {
            None
        },
        None => None,
    }
}

/// Whether every field writes a byte.
pub open spec fn all_bytes(fields: Seq<Seq<char>>) -> bool {
    forall|i: int| 0 <= i < fields.len() ==> byte(#[trigger] fields[i]) is Some
}

/// The bytes that fields write.
pub open spec fn bytes_of(fields: Seq<Seq<char>>) -> Seq<u8> {
    Seq::new(fields.len(), |i: int| byte(fields[i])->0)
}

/// The control that a text writes as `unit:selector:b,b,...`. Every byte must be one: a field
/// that is not would otherwise make it a different control.
pub open spec fn control(s: Seq<char>) -> Option<ControlView> {
    let parts = split(trimmed(s), ':');
    if parts.len() != 3 {
        None
    } else {
        let payload = split(parts[2], ',');
        if byte(parts[0]) is Some && byte(parts[1]) is Some && all_bytes(payload) {
            Some(
                ControlView {
                    unit: byte(parts[0])->0,
                    selector: byte(parts[1])->0,
                    payload: bytes_of(payload),
                },
            )
        } else {
            None
        }
    }
}

fn read_unsigned(s: &[char], base: u8) -> (r: Option<u32>)
    requires
        2 <= base <= 16,
    ensures
        match r {
            Some(n) => unsigned(s@, base as int) == Some(n as int) && n <= 255,
            None => unsigned(s@, base as int) is None || unsigned(s@, base as int)->0 > 255,
        },
{
    let from: usize = if s.len() > 0 && s[0] == '+' {
        1
    } else {
        0
    };
    let digits: Vec<char> = copy_range(s, from, s.len());
    assert(digits@ =~= (if from == 1 {
        s@.skip(1)
    } else {
        s@
    }));
    if digits.len() == 0 {
        return None;
    }
    read_number(digits.as_slice(), base, 255)
}

/// Reads a byte in decimal, or in hexadecimal behind `0x`.
pub(crate) fn read_byte(s: &[char]) -> (r: Option<u8>)
    ensures
        r == byte(s@),
{
    let t: Vec<char> = trim(s);
    let value: Option<u32> = if t.len() >= 2 && t[0] == '0' && (t[1] == 'x' || t[1] == 'X') {
        let digits: Vec<char> = copy_range(t.as_slice(), 2, t.len());
        assert(digits@ =~= t@.skip(2));
        read_unsigned(digits.as_slice(), 16)
    } else {
        read_unsigned(t.as_slice(), 10)
    };
    proof {
        let digits = if has_hex_prefix(t@) {
            t@.skip(2)
        } else {
            t@
        };
        let plain = if digits.len() > 0 && digits[0] == '+' {
            digits.skip(1)
        } else {
            digits
        };
        let base: int = if has_hex_prefix(t@) {
            16
        } else {
            10
        };
        crate::text::number_of_prefix(plain, base, 0);
        crate::text::number_of_prefix(plain, base, plain.len() as int);
        assert(plain.take(plain.len() as int) =~= plain);
    }
    match value {
        Some(n) => Some(n as u8),
        None => None,
    }
}

/// Reads a byte in decimal, or in hexadecimal behind `0x`.
#[must_use]
pub fn parse_u8(s: &str) -> (r: Option<u8>)
    ensures
        r == byte(s@),
{
    read_byte(chars_of(s).as_slice())
}

/// Reads bytes that are written with commas between them.
fn read_bytes(s: &[char]) -> (r: Option<Vec<u8>>)
    ensures
        match r {
            Some(bytes) => all_bytes(split(s@, ',')) && bytes@ == bytes_of(split(s@, ',')),
            None => !all_bytes(split(s@, ',')),
        },
{
    let fields: Vec<Vec<char>> = split_on(s, ',');
    let ghost views = split(s@, ',');
    assert(fields@.len() == views.len());
    let mut bytes: Vec<u8> = Vec::new();
    let mut i: usize = 0;
    while i < fields.len()
        invariant
            views == split(s@, ','),
            field_views(fields@) == views,
            fields@.len() == views.len(),
            i <= fields@.len(),
            bytes@.len() == i,
            forall|k: int|
                0 <= k < i ==> byte(#[trigger] views[k]) is Some && bytes@[k] == byte(views[k])->0,
        decreases fields@.len() - i,
    {
        assert(fields@[i as int]@ == views[i as int]);
        match read_byte(fields[i].as_slice()) {
            Some(b) => {
                bytes.push(b);
            },
            None => {
                return None;
            },
        }
        i = i + 1;
    }
    assert(bytes@ =~= bytes_of(views));
    Some(bytes)
}

/// Reads a control in the form `unit:selector:b,b,b,...`, with bytes in decimal or `0x`
/// hexadecimal.
#[must_use]
pub fn parse_control(raw: &str) -> (r: Option<EmitterControl>)
    ensures
        match r {
            Some(c) => control(raw@) == Some(c@),
            None => control(raw@) is None,
        },
{
    let text: Vec<char> = trim(chars_of(raw).as_slice());
    let parts: Vec<Vec<char>> = split_on(text.as_slice(), ':');
    let ghost views = split(text@, ':');
    assert(parts@.len() == views.len());
    if parts.len() != 3 {
        return None;
    }
    assert(parts@[0]@ == views[0] && parts@[1]@ == views[1] && parts@[2]@ == views[2]);
    let unit: u8 = match read_byte(parts[0].as_slice()) {
        Some(b) => b,
        None => {
            return None;
        },
    };
    let selector: u8 = match read_byte(parts[1].as_slice()) {
        Some(b) => b,
        None => {
            return None;
        },
    };
    match read_bytes(parts[2].as_slice()) {
        Some(payload) => Some(EmitterControl { unit, selector, payload }),
        None => None,
    }
}

// ---------------------------------------------------------------------------------------------
// The built-in table
// ---------------------------------------------------------------------------------------------

/// The face-authentication payload that was validated on the cameras of the built-in table.
pub open spec fn hello_face_auth() -> Seq<u8> {
    seq![1u8, 3, 2, 0, 0, 0, 0, 0, 0]
}

/// The control that is built in for a USB product.
pub open spec fn built_in(vid: u16, pid: u16) -> Option<ControlView> {
    if vid == 0x3277 && pid == 0x0059 {
        Some(
            ControlView {
                unit: 14,
                selector: MSXU_FACE_AUTHENTICATION,
                payload: hello_face_auth(),
            },
        )
    } else if vid == 0x3443 && pid == 0xc803 {
        Some(
            ControlView {
                unit: 4,
                selector: MSXU_FACE_AUTHENTICATION,
                payload: hello_face_auth(),
            },
        )
    } else {
        None
    }
}

/// Built-in table, keyed on the USB vendor and product: a name is not an identity, and an entry
/// is only meaningful for the exact module that it was validated against.
#[must_use]
pub fn known_control(vid: u16, pid: u16) -> (r: Option<EmitterControl>)
    ensures
        match r {
            Some(c) => built_in(vid, pid) == Some(c@),
            None => built_in(vid, pid) is None,
        },
{
    let unit: u8 = if vid == 0x3277 && pid == 0x0059 {
        // Shinetech "ASUS FHD webcam" in the Zenbook S 14.
        14
    } else if vid == 0x3443 && pid == 0xc803 {
        // NexiGo HelloCam N930W.
        4
    } else {
        return None;
    };
    let payload: Vec<u8> = vec![1u8, 3, 2, 0, 0, 0, 0, 0, 0];
    assert(payload@ =~= hello_face_auth());
    Some(EmitterControl { unit, selector: MSXU_FACE_AUTHENTICATION, payload })
}

/// Whether a camera documents a control: it sits on the camera's Microsoft unit, and that unit
/// advertises it.
pub open spec fn documented(id: CameraIdentity, unit: u8, selector: u8) -> bool {
    match first_microsoft(id.units@) {
        Some(ms) => ms.unit_id == unit && ms.offers(selector),
        None => false,
    }
}

/// Whether a control may be written to the camera without anyone asking at this moment: it must
/// sit on that camera's Microsoft camera-control unit and name a selector the unit advertises.
#[must_use]
pub fn control_is_documented(id: &CameraIdentity, ctrl: &EmitterControl) -> (r: bool)
    ensures
        r == documented(*id, ctrl.unit, ctrl.selector),
{
    match id.microsoft_xu() {
        Some(ms) => ms.unit_id == ctrl.unit && ms.advertises(ctrl.selector),
        None => false,
    }
}

// ---------------------------------------------------------------------------------------------
// The recorded control
// ---------------------------------------------------------------------------------------------

/// Whether a selector is one that a setup run can record.
pub open spec fn recordable(selector: u8) -> bool {
    selector == MSXU_FACE_AUTHENTICATION || selector == MSXU_IR_TORCH
}

/// The first line of a text, without its line feed.
pub open spec fn first_line(s: Seq<char>) -> Seq<char> {
    match first_index(s, '\n') {
        Some(i) => s.take(i),
        None => s,
    }
}

/// The control that a record names for a camera: the camera's USB identity, a space, and
/// `unit:selector`. The coordinates only: a payload is never stored, so a third field is no
/// record.
pub open spec fn recorded(text: Seq<char>, usb_id: Seq<char>) -> Option<(u8, u8)> {
    let line = trimmed(first_line(text));
    match first_index(line, ' ') {
        Some(i) => {
            let parts = split(trimmed(line.skip(i + 1)), ':');
            if same_but_for_case(line.take(i), usb_id) && parts.len() == 2 && byte(
                parts[0],
            ) is Some && byte(parts[1]) is Some && recordable(byte(parts[1])->0) {
                Some((byte(parts[0])->0, byte(parts[1])->0))
            } else {
                None
            }
        },
        None => None,
    }
}

/// The text of a record.
pub open spec fn conf_line(usb_id: Seq<char>, unit: u8, selector: u8) -> Seq<char> {
    usb_id + " "@ + decimal(unit as nat) + ":"@ + decimal(selector as nat)
}

/// The text that records which control worked, stamped with the camera it was found on.
#[must_use]
pub fn conf_text(id: &CameraIdentity, ctrl: &EmitterControl) -> (r: String)
    ensures
        r@ == conf_line(id.usb_text(), ctrl.unit, ctrl.selector),
{
    let mut s: String = id.usb_id();
    s.append(" ");
    push_decimal(&mut s, ctrl.unit as u64);
    s.append(":");
    push_decimal(&mut s, ctrl.selector as u64);
    s
}

/// Which control a setup run found, if the record is of the camera now attached.
///
/// The camera is recorded because unit and selector numbers are per-camera, and only the two
/// controls that a setup run can record are accepted.
#[must_use]
pub fn recorded_control(text: &str, id: &CameraIdentity) -> (r: Option<(u8, u8)>)
    ensures
        r == recorded(text@, id.usb_text()),
{
    let all: Vec<char> = chars_of(text);
    let end: usize = match find(all.as_slice(), '\n') {
        Some(i) => i,
        None => all.len(),
    };
    let first: Vec<char> = copy_range(all.as_slice(), 0, end);
    assert(first@ =~= first_line(text@));
    let line: Vec<char> = trim(first.as_slice());
    let space: usize = match find(line.as_slice(), ' ') {
        Some(i) => i,
        None => {
            return None;
        },
    };
    let stamp: Vec<char> = copy_range(line.as_slice(), 0, space);
    assert(stamp@ =~= line@.take(space as int));
    if !same_ignoring_case(stamp.as_slice(), chars_of(id.usb_id().as_str()).as_slice()) {
        return None;
    }
    let length: usize = line.len();
    let rest: Vec<char> = copy_range(line.as_slice(), space + 1, length);
    assert(rest@ =~= line@.skip(space as int + 1));
    let parts: Vec<Vec<char>> = split_on(trim(rest.as_slice()).as_slice(), ':');
    let ghost views = split(trimmed(rest@), ':');
    assert(parts@.len() == views.len());
    if parts.len() != 2 {
        return None;
    }
    assert(parts@[0]@ == views[0] && parts@[1]@ == views[1]);
    let unit: u8 = match read_byte(parts[0].as_slice()) {
        Some(b) => b,
        None => {
            return None;
        },
    };
    let selector: u8 = match read_byte(parts[1].as_slice()) {
        Some(b) => b,
        None => {
            return None;
        },
    };
    if selector != MSXU_FACE_AUTHENTICATION && selector != MSXU_IR_TORCH {
        return None;
    }
    Some((unit, selector))
}

// ---------------------------------------------------------------------------------------------
// The override
// ---------------------------------------------------------------------------------------------

/// What the environment holds for the override variable.
#[derive(Clone, Debug, PartialEq, Eq)]
pub enum Variable {
    NotPresent,
    NotUnicode,
    Text(String),
}

/// What the override says, with "not set" kept distinct from "set to something unusable": a value
/// that is set but cannot be read as a control is no consent to any other.
#[derive(Debug, PartialEq, Eq)]
pub enum OverrideSetting {
    /// Not set. The recorded control and the built-in table still apply.
    Absent,
    /// `off` or `none`: drive nothing at all.
    Disabled,
    /// A control to apply, subject to every check.
    Control(EmitterControl),
    /// Set to something that is not a control. Carries why, for the message.
    Malformed(String),
}

/// What an override says, as values.
pub enum SettingView {
    Absent,
    Disabled,
    Control(ControlView),
    Malformed(Seq<char>),
}

impl View for OverrideSetting {
    type V = SettingView;

    open spec fn view(&self) -> SettingView {
        match *self {
            OverrideSetting::Absent => SettingView::Absent,
            OverrideSetting::Disabled => SettingView::Disabled,
            OverrideSetting::Control(c) => SettingView::Control(c@),
            OverrideSetting::Malformed(why) => SettingView::Malformed(why@),
        }
    }
}

/// Why a text is no control, with that text already quoted.
pub open spec fn not_a_control(quoted: Seq<char>) -> Seq<char> {
    "is set to "@ + quoted
        + ", which is not unit:selector:bytes, so nothing was driven; unset it to use the camera's own control"@
}

/// What the variable means. An empty value is someone clearing it, not a typo.
pub open spec fn setting(variable: Variable) -> SettingView {
    match variable {
        Variable::NotPresent => SettingView::Absent,
        Variable::NotUnicode => SettingView::Malformed("is not valid text"@),
        Variable::Text(raw) => {
            let text = trimmed(raw@);
            if text == "off"@ || text == "none"@ {
                SettingView::Disabled
            } else if text.len() == 0 {
                SettingView::Absent
            } else if control(text) is Some {
                SettingView::Control(control(text)->0)
            } else {
                SettingView::Malformed(not_a_control(debug_quoted(text)))
            }
        },
    }
}

/// What the override variable means.
#[must_use]
pub fn override_setting(raw: Variable) -> (r: OverrideSetting)
    ensures
        r@ == setting(raw),
{
    let raw: String = match raw {
        Variable::NotPresent => {
            return OverrideSetting::Absent;
        },
        Variable::NotUnicode => {
            return OverrideSetting::Malformed("is not valid text".to_owned());
        },
        Variable::Text(raw) => raw,
    };
    let text: String = text_of(trim(chars_of(raw.as_str()).as_slice()).as_slice());
    if text == "off".to_owned() || text == "none".to_owned() {
        return OverrideSetting::Disabled;
    }
    proof {
        reveal_strlit("");
    }
    if text == "".to_owned() {
        return OverrideSetting::Absent;
    }
    assert(text@.len() == 0 ==> text@ =~= ""@);
    match parse_control(text.as_str()) {
        Some(ctrl) => OverrideSetting::Control(ctrl),
        None => OverrideSetting::Malformed(malformed_text(quoted(text.as_str()).as_str())),
    }
}

/// Why a text is no control, with that text already quoted.
#[must_use]
pub fn malformed_text(quoted: &str) -> (r: String)
    ensures
        r@ == not_a_control(quoted@),
{
    let mut s: String = "is set to ".to_owned();
    s.append(quoted);
    s.append(
        ", which is not unit:selector:bytes, so nothing was driven; unset it to use the camera's own control",
    );
    s
}

/// Whether the override says to drive nothing.
#[must_use]
pub fn emitter_explicitly_disabled(raw: Variable) -> (r: bool)
    ensures
        r == (setting(raw) is Disabled),
{
    match override_setting(raw) {
        OverrideSetting::Disabled => true,
        _ => false,
    }
}

// ---------------------------------------------------------------------------------------------
// Laws
// ---------------------------------------------------------------------------------------------

/// A rendered byte reads as that byte.
proof fn byte_of_decimal(n: u8)
    ensures
        byte(decimal(n as nat)) == Some(n),
{
    let s = decimal(n as nat);
    decimal_is_a_number(n as nat);
    trimmed_leaves_solid_text(s);
    assert(s[0] != '+');
    if s.len() >= 2 {
        assert('0' <= s[1] <= '9');
    }
}

/// The fields of rendered bytes are the bytes, each rendered.
proof fn split_of_decimals(bytes: Seq<u8>)
    requires
        bytes.len() > 0,
    ensures
        split(decimal_list(bytes, ","@), ',') == Seq::new(
            bytes.len(),
            |i: int| decimal(bytes[i] as nat),
        ),
        decimal_list(bytes, ","@).len() > 0,
        '0' <= decimal_list(bytes, ","@).last() <= '9',
        forall|i: int|
            0 <= i < decimal_list(bytes, ","@).len() ==> (#[trigger] decimal_list(bytes, ","@)[i])
                != ':',
    decreases bytes.len(),
{
    reveal_strlit(",");
    let list = decimal_list(bytes, ","@);
    let rendered = Seq::new(bytes.len(), |i: int| decimal(bytes[i] as nat));
    decimal_is_a_number(bytes.last() as nat);
    split_without_separator(decimal(bytes.last() as nat), ',');
    if bytes.len() == 1 {
        assert(rendered =~= seq![decimal(bytes.last() as nat)]);
    } else {
        let before = decimal_list(bytes.drop_last(), ","@);
        split_of_decimals(bytes.drop_last());
        split_at_separator(before, decimal(bytes.last() as nat), ',');
        assert(list =~= before.push(',') + decimal(bytes.last() as nat));
        assert(rendered =~= Seq::new(
            bytes.drop_last().len(),
            |i: int| decimal(bytes.drop_last()[i] as nat),
        ) + seq![decimal(bytes.last() as nat)]);
        assert forall|i: int| 0 <= i < list.len() implies (#[trigger] list[i]) != ':' by {
            if i < before.len() {
                assert(list[i] == before[i]);
            } else if i > before.len() {
                assert(list[i] == decimal(bytes.last() as nat)[i - before.len() - 1]);
            }
        }
    }
}

/// What a control is written as reads as that control, where it has a payload; without one it is
/// refused.
pub proof fn encoding_reads_back(c: ControlView)
    ensures
        control(c.encoded()) == (if c.payload.len() > 0 {
            Some(c)
        } else {
            None
        }),
{
    reveal_strlit(":");
    reveal_strlit(",");
    let unit = decimal(c.unit as nat);
    let selector = decimal(c.selector as nat);
    let list = decimal_list(c.payload, ","@);
    let s = c.encoded();
    decimal_is_a_number(c.unit as nat);
    decimal_is_a_number(c.selector as nat);
    byte_of_decimal(c.unit);
    byte_of_decimal(c.selector);
    assert(s =~= unit.push(':') + (selector.push(':') + list));
    if c.payload.len() > 0 {
        split_of_decimals(c.payload);
        assert(s.last() == list.last());
    } else {
        assert(list =~= Seq::<char>::empty());
        assert(s.last() == ':');
    }
    assert(s[0] == unit[0]);
    trimmed_leaves_solid_text(s);
    split_without_separator(unit, ':');
    split_without_separator(selector, ':');
    split_without_separator(list, ':');
    split_at_separator(unit, selector.push(':') + list, ':');
    split_at_separator(selector, list, ':');
    let parts = split(s, ':');
    assert(parts =~= seq![unit, selector, list]);
    if c.payload.len() > 0 {
        let fields = split(list, ',');
        assert forall|i: int| 0 <= i < fields.len() implies byte(#[trigger] fields[i]) == Some(
            c.payload[i],
        ) by {
            byte_of_decimal(c.payload[i]);
        }
        assert(bytes_of(fields) =~= c.payload);
        assert(control(s)->0.payload =~= c.payload);
    } else {
        split_without_separator(list, ',');
        let fields = split(list, ',');
        trimmed_leaves_solid_text(list);
        assert(byte(fields[0]) is None);
    }
}

/// A camera's own USB identity has no blank in it.
proof fn usb_text_is_solid(id: CameraIdentity)
    ensures
        id.usb_text().len() == 9,
        forall|i: int|
            0 <= i < 9 ==> !white_space(#[trigger] id.usb_text()[i]) && id.usb_text()[i] != '\n',
{
    reveal_strlit(":");
    hex_digits_are_solid(id.vid as nat, 4);
    hex_digits_are_solid(id.pid as nat, 4);
    let v = hex_digits(id.vid as nat, 4);
    let p = hex_digits(id.pid as nat, 4);
    let s = id.usb_text();
    assert forall|i: int| 0 <= i < 9 implies !white_space(#[trigger] s[i]) && s[i] != '\n' by {
        if i < 4 {
            assert(s[i] == v[i]);
        } else if i > 4 {
            assert(s[i] == p[i - 5]);
        }
    }
}

/// What a setup run records of a camera is read back for that camera, where it is one of the two
/// controls that can be recorded.
pub proof fn record_reads_back(id: CameraIdentity, unit: u8, selector: u8)
    ensures
        recorded(conf_line(id.usb_text(), unit, selector), id.usb_text()) == (if recordable(
            selector,
        ) {
            Some((unit, selector))
        } else {
            None
        }),
{
    record_of_one_camera(id, id, unit, selector);
}

/// What a setup run records of one camera says nothing of a camera with another USB identity.
pub proof fn record_of_another_camera_is_refused(
    id: CameraIdentity,
    other: CameraIdentity,
    unit: u8,
    selector: u8,
)
    requires
        id.vid != other.vid || id.pid != other.pid,
    ensures
        recorded(conf_line(id.usb_text(), unit, selector), other.usb_text()) is None,
{
    record_of_one_camera(id, other, unit, selector);
    if same_but_for_case(id.usb_text(), other.usb_text()) {
        same_identity_same_numbers(id, other);
    }
}

proof fn record_of_one_camera(id: CameraIdentity, reader: CameraIdentity, unit: u8, selector: u8)
    ensures
        recorded(conf_line(id.usb_text(), unit, selector), reader.usb_text()) == (
        if same_but_for_case(id.usb_text(), reader.usb_text()) && recordable(selector) {
            Some((unit, selector))
        } else {
            None
        }),
{
    reveal_strlit(":");
    reveal_strlit(" ");
    let usb = id.usb_text();
    let u = decimal(unit as nat);
    let l = decimal(selector as nat);
    let s = conf_line(usb, unit, selector);
    usb_text_is_solid(id);
    decimal_is_a_number(unit as nat);
    decimal_is_a_number(selector as nat);
    byte_of_decimal(unit);
    byte_of_decimal(selector);
    let coordinates = u.push(':') + l;
    assert(s =~= usb.push(' ') + coordinates);
    first_index_bounds(s, '\n');
    assert forall|i: int| 0 <= i < s.len() implies s[i] != '\n' by {
        if i < 9 {
            assert(s[i] == usb[i]);
        } else if i > 9 && i < 10 + u.len() {
            assert(s[i] == u[i - 10]);
        } else if i > 10 + u.len() {
            assert(s[i] == l[i - 11 - u.len()]);
        }
    }
    assert(first_line(s) == s);
    assert(s[0] == usb[0]);
    assert(s.last() == l.last());
    trimmed_leaves_solid_text(s);
    assert forall|i: int| 0 <= i < usb.len() implies usb[i] != ' ' by {
        assert(!white_space(usb[i]));
    }
    first_index_at_separator(usb, coordinates, ' ');
    assert(s.take(9) =~= usb);
    assert(s.skip(10) =~= coordinates);
    assert(coordinates[0] == u[0]);
    assert(coordinates.last() == l.last());
    trimmed_leaves_solid_text(coordinates);
    split_without_separator(u, ':');
    split_without_separator(l, ':');
    split_at_separator(u, l, ':');
    assert(split(coordinates, ':') =~= seq![u, l]);
}

/// Hexadecimal digits that differ in nothing but case write the same number.
proof fn same_digits_same_number(a: nat, b: nat, width: nat)
    requires
        same_but_for_case(hex_digits(a, width), hex_digits(b, width)),
    ensures
        a % pow16(width) == b % pow16(width),
    decreases width,
{
    if width > 0 {
        let x = hex_digits(a, width);
        let y = hex_digits(b, width);
        let w = (width - 1) as nat;
        hex_digits_are_solid(a, width);
        hex_digits_are_solid(b, width);
        hex_digits_are_solid(a / 16, w);
        hex_digits_are_solid(b / 16, w);
        assert forall|i: int| 0 <= i < w implies lower(#[trigger] hex_digits(a / 16, w)[i])
            == lower(hex_digits(b / 16, w)[i]) by {
            assert(x[i] == hex_digits(a / 16, w)[i]);
            assert(y[i] == hex_digits(b / 16, w)[i]);
        }
        same_digits_same_number(a / 16, b / 16, w);
        assert(lower(x[w as int]) == lower(y[w as int]));
        digit_value_of_char((a % 16) as int);
        digit_value_of_char((b % 16) as int);
        assert(a % 16 == b % 16);
        let m = pow16(w);
        assert(m > 0) by {
            pow16_positive(w);
        }
        assert(a % (16 * m) == 16 * ((a / 16) % m) + a % 16 && b % (16 * m) == 16 * ((b / 16) % m)
            + b % 16) by {
            vstd::arithmetic::div_mod::lemma_mod_breakdown(a as int, 16, m as int);
            vstd::arithmetic::div_mod::lemma_mod_breakdown(b as int, 16, m as int);
        }
    } else {
        assert(pow16(0) == 1);
    }
}

spec fn pow16(n: nat) -> nat
    decreases n,
{
    if n == 0 {
        1
    } else {
        16 * pow16((n - 1) as nat)
    }
}

proof fn pow16_positive(n: nat)
    ensures
        pow16(n) > 0,
    decreases n,
{
    if n > 0 {
        pow16_positive((n - 1) as nat);
    }
}

proof fn same_identity_same_numbers(id: CameraIdentity, other: CameraIdentity)
    requires
        same_but_for_case(id.usb_text(), other.usb_text()),
    ensures
        id.vid == other.vid,
        id.pid == other.pid,
{
    reveal_strlit(":");
    hex_digits_are_solid(id.vid as nat, 4);
    hex_digits_are_solid(id.pid as nat, 4);
    hex_digits_are_solid(other.vid as nat, 4);
    hex_digits_are_solid(other.pid as nat, 4);
    let a = id.usb_text();
    let b = other.usb_text();
    assert forall|i: int| 0 <= i < 4 implies lower(#[trigger] hex_digits(id.vid as nat, 4)[i])
        == lower(hex_digits(other.vid as nat, 4)[i]) by {
        assert(a[i] == hex_digits(id.vid as nat, 4)[i]);
        assert(b[i] == hex_digits(other.vid as nat, 4)[i]);
    }
    assert forall|i: int| 0 <= i < 4 implies lower(#[trigger] hex_digits(id.pid as nat, 4)[i])
        == lower(hex_digits(other.pid as nat, 4)[i]) by {
        assert(a[i + 5] == hex_digits(id.pid as nat, 4)[i]);
        assert(b[i + 5] == hex_digits(other.pid as nat, 4)[i]);
    }
    same_digits_same_number(id.vid as nat, other.vid as nat, 4);
    same_digits_same_number(id.pid as nat, other.pid as nat, 4);
    assert(pow16(4) == 65536) by {
        reveal_with_fuel(pow16, 5);
    }
}

/// The built-in table holds the two cameras that it was validated against and no other: unit 14 of
/// 3277:0059 and unit 4 of 3443:c803, each with the face-authentication selector and the payload
/// that sets mode 2 for its one interface.
pub proof fn the_built_in_table_is_these_two_cameras(vid: u16, pid: u16)
    ensures
        built_in(vid, pid) is Some <==> (vid == 0x3277 && pid == 0x0059) || (vid == 0x3443 && pid
            == 0xc803),
        built_in(0x3277, 0x0059)->0.unit == 14,
        built_in(0x3443, 0xc803)->0.unit == 4,
        built_in(vid, pid) matches Some(ctrl) ==> ctrl.selector == 0x06 && ctrl.payload == seq![
            1u8,
            3,
            2,
            0,
            0,
            0,
            0,
            0,
            0,
        ],
{
}

/// A camera documents a control exactly where its Microsoft unit, the first that it has, is the
/// control's unit and advertises the selector.
pub proof fn a_documented_control_is_on_the_microsoft_unit(
    id: CameraIdentity,
    unit: u8,
    selector: u8,
)
    ensures
        documented(id, unit, selector) <==> (first_microsoft(id.units@) is Some
            && first_microsoft(id.units@)->0.unit_id == unit && first_microsoft(
            id.units@,
        )->0.selectors@.contains(selector)),
        recordable(selector) <==> selector == 0x06 || selector == 0x0a,
{
}

/// A variable that is not set, or holds nothing but white space, asks for nothing; `off` and `none`
/// switch the emitter off, whatever white space is round them; anything else names the control that
/// it writes, or is an error.
pub proof fn a_variable_says_one_thing(variable: Variable)
    ensures
        setting(Variable::NotPresent) is Absent,
        setting(Variable::NotUnicode) is Malformed,
        variable matches Variable::Text(raw) ==> {
            let text = trimmed(raw@);
            &&& setting(variable) is Disabled <==> text == "off"@ || text == "none"@
            &&& text.len() == 0 ==> setting(variable) is Absent
            &&& text.len() > 0 && text != "off"@ && text != "none"@ ==> match control(text) {
                Some(ctrl) => setting(variable) == SettingView::Control(ctrl),
                None => setting(variable) is Malformed,
            }
        },
{
    reveal_strlit("off");
    reveal_strlit("none");
}

/// A control that is written as it is encoded is the one that a variable names.
pub proof fn an_encoded_control_is_the_one_that_is_set(variable: Variable, c: ControlView)
    requires
        variable matches Variable::Text(raw) && raw@ == c.encoded(),
        c.payload.len() > 0,
    ensures
        setting(variable) == SettingView::Control(c),
{
    reveal_strlit("off");
    reveal_strlit("none");
    reveal_strlit(":");
    encoding_reads_back(c);
    let s = c.encoded();
    let unit = decimal(c.unit as nat);
    let list = decimal_list(c.payload, ","@);
    decimal_is_a_number(c.unit as nat);
    byte_of_decimal(c.unit);
    split_of_decimals(c.payload);
    assert(s[0] == unit[0]);
    assert(s.last() == list.last());
    trimmed_leaves_solid_text(s);
    assert(s[unit.len() as int] == ':');
    assert(s == trimmed(s));
    if s == "off"@ || s == "none"@ {
        assert(s[0] != ':' && s[1] != ':' && s[2] != ':');
        assert(s.len() <= 4);
        assert(s[unit.len() as int] == ':');
        assert(s.len() == 4 ==> s[3] == 'e');
    }
}

/// White space round a byte makes no difference to it.
pub proof fn a_byte_may_have_white_space_round_it(
    front: Seq<char>,
    s: Seq<char>,
    back: Seq<char>,
)
    requires
        s.len() > 0,
        !white_space(s[0]),
        !white_space(s.last()),
        forall|i: int| 0 <= i < front.len() ==> white_space(#[trigger] front[i]),
        forall|i: int| 0 <= i < back.len() ==> white_space(#[trigger] back[i]),
    ensures
        byte(front + s + back) == byte(s),
{
    crate::text::trimming_takes_off_the_white_space(front, s, back);
    trimmed_leaves_solid_text(s);
}

/// A byte reads the same in decimal and in hexadecimal behind `0x` of either case.
pub proof fn a_byte_reads_in_both_bases(b: u8)
    ensures
        byte(decimal(b as nat)) == Some(b),
        byte(seq!['0', 'x'] + hex_digits(b as nat, 2)) == Some(b),
        byte(seq!['0', 'X'] + hex_digits(b as nat, 2)) == Some(b),
{
    byte_of_decimal(b);
    crate::text::a_hex_byte_reads_back(b);
    hex_digits_are_solid(b as nat, 2);
    let digits = hex_digits(b as nat, 2);
    digit_value_of_char((b as nat / 16 % 16) as int);
    reveal_with_fuel(hex_digits, 3);
    assert(digits[0] == crate::text::digit_char((b as nat / 16 % 16) as int));
    let x = seq!['0', 'x'] + digits;
    let y = seq!['0', 'X'] + digits;
    assert(x.skip(2) =~= digits);
    assert(y.skip(2) =~= digits);
    assert(x.last() == digits[1] && y.last() == digits[1]);
    trimmed_leaves_solid_text(x);
    trimmed_leaves_solid_text(y);
}

/// A number above 255 is no byte, and neither is a text without digits.
pub proof fn a_byte_has_eight_bits(n: nat)
    requires
        n > 255,
    ensures
        byte(decimal(n)) is None,
        byte(seq![]) is None,
        byte(seq!['0', 'x']) is None,
{
    decimal_is_a_number(n);
    let s = decimal(n);
    assert(!white_space(s[0]) && !white_space(s[s.len() - 1]));
    trimmed_leaves_solid_text(s);
    trimmed_leaves_solid_text(seq![]);
    trimmed_leaves_solid_text(seq!['0', 'x']);
    if s.len() >= 2 {
        assert('0' <= s[1] <= '9');
    }
}

/// A control has exactly three fields, each of which writes a byte, the last one at least one of them
/// with a comma between each two; and it is made of exactly those bytes.
pub proof fn a_control_is_made_of_its_fields(s: Seq<char>)
    ensures
        ({
            let parts = split(trimmed(s), ':');
            let fields = split(parts[2], ',');
            let sound = parts.len() == 3 && byte(parts[0]) is Some && byte(parts[1]) is Some && (
            forall|i: int| 0 <= i < fields.len() ==> byte(#[trigger] fields[i]) is Some);
            &&& control(s) is Some <==> sound
            &&& control(s) is Some ==> control(s)->0.unit == byte(parts[0])->0 && control(
                s,
            )->0.selector == byte(parts[1])->0 && control(s)->0.payload.len() == fields.len()
            &&& control(s) is Some ==> forall|i: int|
                0 <= i < fields.len() ==> control(s)->0.payload[i] == byte(#[trigger] fields[i])->0
        }),
{
}

/// Only the first line of a record counts: what stands below it changes nothing.
pub proof fn a_record_is_its_first_line(line: Seq<char>, below: Seq<char>, usb_id: Seq<char>)
    requires
        forall|i: int| 0 <= i < line.len() ==> line[i] != '\n',
    ensures
        recorded(line.push('\n') + below, usb_id) == recorded(line, usb_id),
{
    first_index_at_separator(line, below, '\n');
    assert((line.push('\n') + below).take(line.len() as int) =~= line);
    first_index_bounds(line, '\n');
    if line.contains('\n') {
        let i = choose|i: int| 0 <= i < line.len() && line[i] == '\n';
        assert(line[i] != '\n');
    }
    assert(first_line(line) == line);
}

/// A record names a control only where its line is the camera's identity, but for case, a blank and
/// two fields that write a unit and one of the two selectors that setup records.
pub proof fn a_record_names_a_recordable_control(text: Seq<char>, usb_id: Seq<char>)
    requires
        recorded(text, usb_id) is Some,
    ensures
        ({
            let line = trimmed(first_line(text));
            let at = first_index(line, ' ')->0;
            let parts = split(trimmed(line.skip(at + 1)), ':');
            let (unit, selector) = recorded(text, usb_id)->0;
            &&& first_index(line, ' ') is Some
            &&& same_but_for_case(line.take(at), usb_id)
            &&& parts.len() == 2
            &&& byte(parts[0]) == Some(unit)
            &&& byte(parts[1]) == Some(selector)
            &&& selector == 0x06 || selector == 0x0a
        }),
{
}

} // verus!
