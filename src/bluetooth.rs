//! The read-only attribute table that the wireless link serves: a primary
//! service, one characteristic declaration, and the boiler temperature as its
//! value.
use vstd::prelude::*;
use crate::text::{round_fixed, round_fx};

verus! {

/// Attribute type of a primary service declaration.
pub const PRIMARY_SERVICE: u16 = 0x2800;

/// Attribute type of a characteristic declaration.
pub const CHARACTERISTIC: u16 = 0x2803;

/// Attribute type of a temperature in degrees Celsius.
pub const TEMPERATURE_CELSIUS: u16 = 0x2A1F;

/// Handle of the temperature value.
pub const TEMPERATURE_HANDLE: u16 = 0x0003;

/// One attribute as mathematical values.
pub struct AttributeView {
    pub att_type: u16,
    pub handle: u16,
    pub value: Seq<u8>,
}

/// One attribute: its type, handle and value bytes.
#[derive(Debug)]
pub struct Attribute {
    pub att_type: u16,
    pub handle: u16,
    pub value: Vec<u8>,
}

impl View for Attribute {
    type V = AttributeView;

    open spec fn view(&self) -> AttributeView {
        AttributeView { att_type: self.att_type, handle: self.handle, value: self.value@ }
    }
}

/// The table with `temp` as the temperature value: the Generic Access
/// primary service (0x1800), a readable characteristic at handle 3 of type
/// Temperature Celsius (0x2A1F), and its value.
pub open spec fn table(temp: Seq<u8>) -> Seq<AttributeView> {
    seq![
        AttributeView { att_type: PRIMARY_SERVICE, handle: 1, value: seq![0x00u8, 0x18u8] },
        AttributeView {
            att_type: CHARACTERISTIC,
            handle: 2,
            value: seq![0x02u8, 0x03u8, 0x00u8, 0x1Fu8, 0x2Au8],
        },
        AttributeView { att_type: TEMPERATURE_CELSIUS, handle: TEMPERATURE_HANDLE, value: temp },
    ]
}

/// `x` limited to the range of a 16-bit signed integer.
pub open spec fn saturate_i16(x: int) -> int {
    if x > i16::MAX {
        i16::MAX as int
    } else if x < i16::MIN {
        i16::MIN as int
    } else {
        x
    }
}

/// The two's-complement 16-bit little-endian bytes of `v`.
pub open spec fn le16(v: int) -> Seq<u8> {
    let u = if v < 0 {
        v + 0x1_0000
    } else {
        v
    };
    seq![(u % 256) as u8, (u / 256) as u8]
}

/// The characteristic value for a temperature in thousandths of a degree:
/// whole degrees, rounded, saturated to 16 bits, little-endian.
pub open spec fn temperature_value(temp: int) -> Seq<u8> {
    le16(saturate_i16(round_fx(temp)))
}

/// Characteristic value bytes for `temp` thousandths of a degree Celsius.
pub fn temperature_bytes(temp: i32) -> (r: Vec<u8>)
    ensures
        r@ == temperature_value(temp as int),
{
    let whole = round_fixed(temp);
    let v: i32 = if whole > 32767 {
        32767
    } else if whole < -32768 {
        -32768
    } else {
        whole
    };
    let u: u32 = if v < 0 {
        (v + 0x1_0000) as u32
    } else {
        v as u32
    };
    let mut r: Vec<u8> = Vec::new();
    r.push((u % 256) as u8);
    r.push((u / 256) as u8);
    assert(r@ =~= temperature_value(temp as int));
    r
}

/// Indices `(first, last)` of the attributes of a table of `count` whose
/// handles (1-based) lie in `[start, end]`, or `None` when there are none.
pub open spec fn range_indices(start: int, end: int, count: int) -> Option<(int, int)> {
    if start == 0 || end < start || start - 1 >= count {
        None
    } else {
        Some((start - 1, if end - 1 < count - 1 {
            end - 1
        } else {
            count - 1
        }))
    }
}

/// The attribute table of the controller service.
pub struct ControllerServiceAttrs {
    attributes: Vec<Attribute>,
}

impl View for ControllerServiceAttrs {
    type V = Seq<AttributeView>;

    closed spec fn view(&self) -> Seq<AttributeView> {
        self.attributes@.map_values(|a: Attribute| a@)
    }
}

impl ControllerServiceAttrs {
    /// The table has the controller service's shape, whatever temperature it
    /// holds.
    pub open spec fn wf(&self) -> bool {
        self@ == table(self@[2].value)
    }

    /// The table with a temperature of 0.
    pub fn new() -> (r: ControllerServiceAttrs)
        ensures
            r.wf(),
            r@ == table(seq![0u8, 0u8]),
    {
        let mut service: Vec<u8> = Vec::new();
        service.push(0x00);
        service.push(0x18);
        let mut characteristic: Vec<u8> = Vec::new();
        characteristic.push(0x02);
        characteristic.push(0x03);
        characteristic.push(0x00);
        characteristic.push(0x1F);
        characteristic.push(0x2A);
        let mut value: Vec<u8> = Vec::new();
        value.push(0);
        value.push(0);
        let mut attributes: Vec<Attribute> = Vec::new();
        attributes.push(Attribute { att_type: PRIMARY_SERVICE, handle: 1, value: service });
        attributes.push(Attribute { att_type: CHARACTERISTIC, handle: 2, value: characteristic });
        attributes.push(
            Attribute { att_type: TEMPERATURE_CELSIUS, handle: TEMPERATURE_HANDLE, value },
        );
        let r = ControllerServiceAttrs { attributes };
        assert(r@ =~= table(seq![0u8, 0u8])) by {
            assert(r@[0].value =~= seq![0x00u8, 0x18u8]);
            assert(r@[1].value =~= seq![0x02u8, 0x03u8, 0x00u8, 0x1Fu8, 0x2Au8]);
            assert(r@[2].value =~= seq![0u8, 0u8]);
        }
        r
    }

    /// Publishes `temp` (thousandths of a degree Celsius) as the temperature
    /// value.
    pub fn set_boiler_temp(&mut self, temp: i32)
        requires
            old(self).wf(),
        ensures
            final(self).wf(),
            final(self)@ == table(temperature_value(temp as int)),
    {
        let value = temperature_bytes(temp);
        let att = Attribute { att_type: TEMPERATURE_CELSIUS, handle: TEMPERATURE_HANDLE, value };
        assert(self.attributes@.len() == self@.len());
        self.attributes.set(2, att);
        assert(self@ =~= table(temperature_value(temp as int))) by {
            assert(self@[0] == old(self)@[0]);
            assert(self@[1] == old(self)@[1]);
        }
    }

    /// The attribute with index `i`.
    pub fn attribute(&self, i: usize) -> (r: &Attribute)
        requires
            i < self@.len(),
        ensures
            r@ == self@[i as int],
    {
        &self.attributes[i]
    }

    /// Number of attributes.
    pub fn len(&self) -> (r: usize)
        ensures
            r == self@.len(),
    {
        self.attributes.len()
    }

    /// Indices of the attributes whose handles lie in `[start, end]`.
    pub fn attrs_in_range(&self, start: u16, end: u16) -> (r: Option<(usize, usize)>)
        ensures
            match r {
                Some((a, b)) => range_indices(start as int, end as int, self@.len() as int) == Some(
                    (a as int, b as int),
                ),
                None => range_indices(start as int, end as int, self@.len() as int) is None,
            },
    {
        let count = self.attributes.len();
        if start == 0 || end < start || (start - 1) as usize >= count {
            return None;
        }
        let first = (start - 1) as usize;
        let last = if ((end - 1) as usize) < count - 1 {
            (end - 1) as usize
        } else {
            count - 1
        };
        Some((first, last))
    }

    /// Whether attributes of type `att_type` open a group.
    pub fn is_grouping_attr(&self, att_type: u16) -> (r: bool)
        ensures
            r == (att_type == PRIMARY_SERVICE),
    {
        att_type == PRIMARY_SERVICE
    }

    /// Index of the last attribute of the group that `handle` opens.
    pub fn group_end(&self, handle: u16) -> (r: Option<usize>)
        ensures
            r == (if handle == 1 || handle == 2 {
                Some(2usize)
            } else {
                None::<usize>
            }),
    {
        match handle {
            1 | 2 => Some(2),
            _ => None,
        }
    }
}

} // verus!
