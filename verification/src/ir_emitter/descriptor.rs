//! What a camera's USB descriptors say of its extension units.
use vstd::prelude::*;
use crate::text::{decimal, hex_digits, joined, push_decimal, push_hex, push_joined, texts};

verus! {

/// Microsoft's face-authentication control.
pub const MSXU_FACE_AUTHENTICATION: u8 = 0x06;

/// Microsoft's infrared-torch control.
pub const MSXU_IR_TORCH: u8 = 0x0a;

/// The highest selector that a unit's description lists.
pub const MAX_DESCRIBED_SELECTOR: u8 = 64;

/// An extension unit that a camera publishes.
#[derive(Clone, Debug, PartialEq, Eq)]
pub struct ExtensionUnit {
    pub unit_id: u8,
    /// Whether the unit is Microsoft's camera-control extension.
    pub microsoft: bool,
    /// The selectors that the unit advertises.
    pub selectors: Vec<u8>,
}

impl ExtensionUnit {
    /// Whether the unit advertises a selector.
    pub open spec fn offers(self, selector: u8) -> bool {
        self.selectors@.contains(selector)
    }

    /// Whether the unit advertises the selector.
    #[must_use]
    pub fn advertises(&self, selector: u8) -> (r: bool)
        ensures
            r == self.offers(selector),
    {
        let mut i: usize = 0;
        while i < self.selectors.len()
            invariant
                i <= self.selectors@.len(),
                forall|k: int| 0 <= k < i ==> self.selectors@[k] != selector,
            decreases self.selectors@.len() - i,
        {
            if self.selectors[i] == selector {
                return true;
            }
            i = i + 1;
        }
        false
    }

    /// Whether the unit is Microsoft's camera-control extension.
    #[must_use]
    pub fn is_microsoft_xu(&self) -> (r: bool)
        ensures
            r == self.microsoft,
    {
        self.microsoft
    }

    /// One line on the unit: whose it is and what it advertises.
    pub open spec fn described(self) -> Seq<char> {
        "unit "@ + decimal(self.unit_id as nat) + (if self.microsoft {
            " (Microsoft camera control)"@
        } else {
            " (vendor-defined; irlume will not write to it)"@
        }) + ": advertises ["@ + joined(self.selector_texts(MAX_DESCRIBED_SELECTOR as nat), ", "@)
            + "]"@
    }

    /// The advertised selectors from 1 up to a limit, in order, as they are written.
    pub open spec fn selector_texts(self, limit: nat) -> Seq<Seq<char>>
        decreases limit,
    {
        if limit == 0 {
            seq![]
        } else if self.offers(limit as u8) {
            self.selector_texts((limit - 1) as nat).push(shown_byte(limit as u8))
        } else {
            self.selector_texts((limit - 1) as nat)
        }
    }

    fn describe(&self) -> (r: String)
        ensures
            r@ == self.described(),
    {
        let mut listed: Vec<String> = Vec::new();
        let mut selector: u8 = 0;
        assert(texts(listed@) =~= self.selector_texts(0));
        while selector < MAX_DESCRIBED_SELECTOR
            invariant
                selector <= MAX_DESCRIBED_SELECTOR,
                texts(listed@) == self.selector_texts(selector as nat),
            decreases MAX_DESCRIBED_SELECTOR - selector,
        {
            selector = selector + 1;
            if self.advertises(selector) {
                let ghost before = texts(listed@);
                let shown: String = show_byte(selector);
                listed.push(shown);
                assert(texts(listed@) =~= before.push(shown_byte(selector)));
            }
        }
        let mut s: String = "unit ".to_owned();
        push_decimal(&mut s, self.unit_id as u64);
        if self.is_microsoft_xu() {
            s.append(" (Microsoft camera control)");
        } else {
            s.append(" (vendor-defined; irlume will not write to it)");
        }
        s.append(": advertises [");
        push_joined(&mut s, &listed, ", ");
        s.append("]");
        s
    }
}

/// A byte as `0x` and two hexadecimal digits.
pub open spec fn shown_byte(b: u8) -> Seq<char> {
    "0x"@ + hex_digits(b as nat, 2)
}

/// The byte as `0x` and two hexadecimal digits.
#[must_use]
pub fn show_byte(b: u8) -> (r: String)
    ensures
        r@ == shown_byte(b),
{
    let mut s: String = "0x".to_owned();
    push_hex(&mut s, b as u128, 2);
    s
}

/// The lines that describe units.
pub open spec fn described_units(units: Seq<ExtensionUnit>) -> Seq<Seq<char>> {
    Seq::new(units.len(), |i: int| units[i].described())
}

/// What a camera's extension units are, one line each. Nothing is sent to the device.
#[must_use]
pub fn describe_units(units: &Vec<ExtensionUnit>) -> (r: Vec<String>)
    ensures
        texts(r@) == described_units(units@),
{
    let mut lines: Vec<String> = Vec::new();
    let mut i: usize = 0;
    while i < units.len()
        invariant
            i <= units@.len(),
            texts(lines@) == described_units(units@.take(i as int)),
        decreases units@.len() - i,
    {
        let ghost before = texts(lines@);
        let line: String = units[i].describe();
        lines.push(line);
        i = i + 1;
        assert(texts(lines@) =~= before.push(units@[i - 1].described()));
        assert(described_units(units@.take(i as int)) =~= before.push(units@[i - 1].described()));
    }
    assert(units@.take(i as int) =~= units@);
    lines
}

/// What a camera says it is: the USB identity and the extension units of the open interface.
#[derive(Clone, Debug, PartialEq, Eq)]
pub struct CameraIdentity {
    pub vid: u16,
    pub pid: u16,
    pub interface_number: u8,
    pub serial: Option<String>,
    pub usb_devpath: String,
    pub units: Vec<ExtensionUnit>,
}

/// The first of the units that is Microsoft's camera-control extension.
pub open spec fn first_microsoft(units: Seq<ExtensionUnit>) -> Option<ExtensionUnit>
    decreases units.len(),
{
    if units.len() == 0 {
        None
    } else if units[0].microsoft {
        Some(units[0])
    } else {
        first_microsoft(units.skip(1))
    }
}

/// The first of the units with an id.
pub open spec fn first_with_id(units: Seq<ExtensionUnit>, id: u8) -> Option<ExtensionUnit>
    decreases units.len(),
{
    if units.len() == 0 {
        None
    } else if units[0].unit_id == id {
        Some(units[0])
    } else {
        first_with_id(units.skip(1), id)
    }
}

/// The ids of units.
pub open spec fn unit_ids(units: Seq<ExtensionUnit>) -> Seq<u8> {
    Seq::new(units.len(), |i: int| units[i].unit_id)
}

impl CameraIdentity {
    /// The vendor and product, as four hexadecimal digits each.
    pub open spec fn usb_text(self) -> Seq<char> {
        hex_digits(self.vid as nat, 4) + ":"@ + hex_digits(self.pid as nat, 4)
    }

    /// The vendor and product, as four hexadecimal digits each.
    #[must_use]
    pub fn usb_id(&self) -> (r: String)
        ensures
            r@ == self.usb_text(),
    {
        let mut s: String = "".to_owned();
        proof {
            reveal_strlit("");
        }
        push_hex(&mut s, self.vid as u128, 4);
        assert(s@ =~= hex_digits(self.vid as nat, 4));
        s.append(":");
        push_hex(&mut s, self.pid as u128, 4);
        s
    }

    /// The camera's Microsoft unit.
    #[must_use]
    pub fn microsoft_xu(&self) -> (r: Option<&ExtensionUnit>)
        ensures
            match r {
                Some(unit) => first_microsoft(self.units@) == Some(*unit),
                None => first_microsoft(self.units@) is None,
            },
    {
        let mut i: usize = 0;
        assert(self.units@.skip(0) =~= self.units@);
        while i < self.units.len()
            invariant
                i <= self.units@.len(),
                first_microsoft(self.units@) == first_microsoft(self.units@.skip(i as int)),
            decreases self.units@.len() - i,
        {
            if self.units[i].is_microsoft_xu() {
                return Some(&self.units[i]);
            }
            assert(self.units@.skip(i as int).skip(1) =~= self.units@.skip(i as int + 1));
            i = i + 1;
        }
        None
    }

    /// The camera's unit with an id.
    #[must_use]
    pub fn unit_with_id(&self, id: u8) -> (r: Option<&ExtensionUnit>)
        ensures
            match r {
                Some(unit) => first_with_id(self.units@, id) == Some(*unit),
                None => first_with_id(self.units@, id) is None,
            },
    {
        let mut i: usize = 0;
        assert(self.units@.skip(0) =~= self.units@);
        while i < self.units.len()
            invariant
                i <= self.units@.len(),
                first_with_id(self.units@, id) == first_with_id(self.units@.skip(i as int), id),
            decreases self.units@.len() - i,
        {
            if self.units[i].unit_id == id {
                return Some(&self.units[i]);
            }
            assert(self.units@.skip(i as int).skip(1) =~= self.units@.skip(i as int + 1));
            i = i + 1;
        }
        None
    }

    /// The ids of the camera's units.
    #[must_use]
    pub fn ids(&self) -> (r: Vec<u8>)
        ensures
            r@ == unit_ids(self.units@),
    {
        let mut ids: Vec<u8> = Vec::new();
        let mut i: usize = 0;
        while i < self.units.len()
            invariant
                i <= self.units@.len(),
                ids@ == unit_ids(self.units@.take(i as int)),
            decreases self.units@.len() - i,
        {
            ids.push(self.units[i].unit_id);
            i = i + 1;
            assert(ids@ =~= unit_ids(self.units@.take(i as int)));
        }
        assert(self.units@.take(i as int) =~= self.units@);
        ids
    }
}

// ---------------------------------------------------------------------------------------------
// Laws
// ---------------------------------------------------------------------------------------------

/// A camera's Microsoft unit is the first that is one, and a camera that has one is found to: no
/// unit before it is Microsoft's.
pub proof fn the_first_microsoft_unit_is_found(units: Seq<ExtensionUnit>, k: int)
    requires
        0 <= k < units.len(),
        units[k].microsoft,
        forall|i: int| 0 <= i < k ==> !(#[trigger] units[i]).microsoft,
    ensures
        first_microsoft(units) == Some(units[k]),
    decreases units.len(),
{
    if k > 0 {
        assert(!units[0].microsoft);
        let rest = units.skip(1);
        assert forall|i: int| 0 <= i < k - 1 implies !(#[trigger] rest[i]).microsoft by {
            assert(rest[i] == units[i + 1]);
        }
        the_first_microsoft_unit_is_found(rest, k - 1);
    }
}

/// A camera none of whose units is Microsoft's has no Microsoft unit.
pub proof fn a_vendor_camera_has_no_microsoft_unit(units: Seq<ExtensionUnit>)
    requires
        forall|i: int| 0 <= i < units.len() ==> !(#[trigger] units[i]).microsoft,
    ensures
        first_microsoft(units) is None,
    decreases units.len(),
{
    if units.len() > 0 {
        let rest = units.skip(1);
        assert forall|i: int| 0 <= i < rest.len() implies !(#[trigger] rest[i]).microsoft by {
            assert(rest[i] == units[i + 1]);
        }
        a_vendor_camera_has_no_microsoft_unit(rest);
    }
}

/// A unit is found by its id, whoever's it is: the first that has it, and none only where no unit
/// has it.
pub proof fn a_unit_is_found_by_its_id(units: Seq<ExtensionUnit>, id: u8)
    ensures
        match first_with_id(units, id) {
            Some(unit) => exists|k: int|
                0 <= k < units.len() && #[trigger] units[k] == unit && unit.unit_id == id && forall|
                    i: int,
                |
                    0 <= i < k ==> (#[trigger] units[i]).unit_id != id,
            None => forall|i: int| 0 <= i < units.len() ==> (#[trigger] units[i]).unit_id != id,
        },
    decreases units.len(),
{
    if units.len() > 0 {
        if units[0].unit_id == id {
            assert(units[0] == first_with_id(units, id)->0);
        } else {
            let rest = units.skip(1);
            a_unit_is_found_by_its_id(rest, id);
            match first_with_id(rest, id) {
                Some(unit) => {
                    let k = choose|k: int|
                        0 <= k < rest.len() && #[trigger] rest[k] == unit && unit.unit_id == id
                            && forall|i: int|
                            0 <= i < k ==> (#[trigger] rest[i]).unit_id != id;
                    assert(units[k + 1] == unit);
                    assert forall|i: int| 0 <= i < k + 1 implies (#[trigger] units[i]).unit_id
                        != id by {
                        if i > 0 {
                            assert(rest[i - 1] == units[i]);
                        }
                    }
                },
                None => {
                    assert forall|i: int| 0 <= i < units.len() implies (
                    #[trigger] units[i]).unit_id != id by {
                        if i > 0 {
                            assert(rest[i - 1] == units[i]);
                        }
                    }
                },
            }
        }
    }
}

} // verus!
