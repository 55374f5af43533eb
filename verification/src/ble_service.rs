//! Attribute table of the robot's Bluetooth Low Energy service.
//!
//! The table has four attributes with the handles one to four: the service
//! declaration, the characteristic declaration, the characteristic value and
//! the client configuration descriptor. The value of the third is the
//! backing state, which lives in the table itself: a write to the state is
//! what the next read of the table returns.

use vstd::prelude::*;

verus! {

/// Handle of the characteristic value, the one writable attribute.
pub const LED_CHAR_VALUE_HANDLE: u16 = 0x3;

/// Number of attributes in the table, and so the last handle.
pub const ATTRIBUTE_COUNT: u16 = 4;

/// Type of a primary service declaration.
pub const PRIMARY_SERVICE_UUID16: u16 = 0x2800;

/// Type of a characteristic declaration.
pub const CHARACTERISTIC_UUID16: u16 = 0x2803;

/// Type of a client characteristic configuration descriptor.
pub const CLIENT_CONFIG_UUID16: u16 = 0x2902;

/// What a client may do with an attribute.
#[derive(Clone, Copy, Debug, PartialEq, Eq, Structural)]
pub enum AttributeAccessPermissions {
    Readable,
    Writeable,
    ReadableAndWriteable,
}

/// Whether writes to the attribute with handle `handle` are taken: the
/// characteristic value is the one attribute that is written.
pub open spec fn is_writable_handle(handle: u16) -> bool {
    handle == LED_CHAR_VALUE_HANDLE
}

/// What a client may do with the attribute with handle `handle`: read and
/// write the characteristic value, read any other.
pub open spec fn access_permissions(handle: u16) -> AttributeAccessPermissions {
    if is_writable_handle(handle) {
        AttributeAccessPermissions::ReadableAndWriteable
    } else {
        AttributeAccessPermissions::Readable
    }
}

/// The type of an attribute: a 16-bit alias or a full 128-bit identifier.
#[derive(Clone, Copy, Debug, PartialEq, Eq)]
pub enum AttUuid {
    Uuid16(u16),
    Uuid128([u8; 16]),
}

/// One attribute of the table.
#[derive(Debug, PartialEq, Eq)]
pub struct Attribute {
    pub att_type: AttUuid,
    pub handle: u16,
    pub value: Vec<u8>,
}

/// An [`Attribute`] as a mathematical value.
pub struct AttributeModel {
    pub att_type: AttUuid,
    pub handle: u16,
    pub value: Seq<u8>,
}

impl View for Attribute {
    type V = AttributeModel;

    open spec fn view(&self) -> AttributeModel {
        AttributeModel { att_type: self.att_type, handle: self.handle, value: self.value@ }
    }
}

/// The attributes of a vector as mathematical values.
pub open spec fn models(attrs: Seq<Attribute>) -> Seq<AttributeModel> {
    attrs.map_values(|a: Attribute| a@)
}

/// The backing state right after start-up.
pub open spec fn initial_state() -> Seq<u8> {
    seq![0x12u8, 0x34u8]
}

/// The identifier of the service, as the service declaration holds it.
pub open spec fn service_uuid_bytes() -> Seq<u8> {
    seq![
        0x70u8, 0x6Cu8, 0x98u8, 0x41u8, 0xCEu8, 0x43u8, 0x14u8, 0xA9u8,
        0xB5u8, 0x4Du8, 0x22u8, 0x2Bu8, 0x89u8, 0x10u8, 0xE6u8, 0x32u8,
    ]
}

/// The identifier of the characteristic: that of the service with 0x108A
/// in place of 0x1089.
pub open spec fn characteristic_uuid_bytes() -> Seq<u8> {
    seq![
        0x70u8, 0x6Cu8, 0x98u8, 0x41u8, 0xCEu8, 0x43u8, 0x14u8, 0xA9u8,
        0xB5u8, 0x4Du8, 0x22u8, 0x2Bu8, 0x8Au8, 0x10u8, 0xE6u8, 0x32u8,
    ]
}

/// The characteristic declaration: one byte of properties (read 0x02, write
/// command 0x04, write request 0x08, notify 0x10), the handle of the value
/// in two bytes, and the identifier of the characteristic.
pub open spec fn characteristic_declaration() -> Seq<u8> {
    seq![0x1Eu8, 0x03u8, 0x00u8] + characteristic_uuid_bytes()
}

/// The table over the backing state `state`.
pub open spec fn table(state: Seq<u8>) -> Seq<AttributeModel> {
    seq![
        AttributeModel {
            att_type: AttUuid::Uuid16(PRIMARY_SERVICE_UUID16),
            handle: 1,
            value: service_uuid_bytes(),
        },
        AttributeModel {
            att_type: AttUuid::Uuid16(CHARACTERISTIC_UUID16),
            handle: 2,
            value: characteristic_declaration(),
        },
        AttributeModel {
            att_type: AttUuid::Uuid128(characteristic_uuid()),
            handle: LED_CHAR_VALUE_HANDLE,
            value: state,
        },
        AttributeModel {
            att_type: AttUuid::Uuid16(CLIENT_CONFIG_UUID16),
            handle: 4,
            value: seq![0x00u8, 0x00u8],
        },
    ]
}

/// The identifier of the characteristic as an array.
pub open spec fn characteristic_uuid() -> [u8; 16] {
    [
        0x70u8, 0x6Cu8, 0x98u8, 0x41u8, 0xCEu8, 0x43u8, 0x14u8, 0xA9u8,
        0xB5u8, 0x4Du8, 0x22u8, 0x2Bu8, 0x8Au8, 0x10u8, 0xE6u8, 0x32u8,
    ]
}

/// The first handle of the table that a range from `start` on covers.
pub open spec fn first_in_range(start: u16) -> int {
    if start == 0 {
        1
    } else {
        start as int
    }
}

/// The last handle of the table that a range up to `end` covers.
pub open spec fn last_in_range(end: u16) -> int {
    if end > ATTRIBUTE_COUNT {
        ATTRIBUTE_COUNT as int
    } else {
        end as int
    }
}

/// The attributes of `t` whose handles lie in the inclusive range from
/// `start` to `end`, in handle order: the range clipped to the table, and
/// nothing where the range is empty or starts behind the last handle.
pub open spec fn in_range(t: Seq<AttributeModel>, start: u16, end: u16) -> Seq<AttributeModel>
    recommends
        t.len() == ATTRIBUTE_COUNT,
{
    if first_in_range(start) > last_in_range(end) {
        Seq::empty()
    } else {
        t.subrange(first_in_range(start) - 1, last_in_range(end))
    }
}

/// The sixteen bytes of the full identifier that the 16-bit alias `short`
/// stands for: the Bluetooth base identifier with the alias in its third
/// and fourth byte.
pub open spec fn alias_bytes(short: u16) -> Seq<u8> {
    seq![
        0x00u8, 0x00u8, (short / 256) as u8, (short % 256) as u8,
        0x00u8, 0x00u8, 0x10u8, 0x00u8, 0x80u8, 0x00u8,
        0x00u8, 0x80u8, 0x5Fu8, 0x9Bu8, 0x34u8, 0xFBu8,
    ]
}

/// Whether `uuid` is the identifier that the alias `short` stands for,
/// written as the alias itself or in full.
pub open spec fn is_alias(uuid: AttUuid, short: u16) -> bool {
    match uuid {
        AttUuid::Uuid16(a) => a == short,
        AttUuid::Uuid128(b) => b@ == alias_bytes(short),
    }
}

/// Whether attributes of type `uuid` start a group: service declarations
/// and characteristic declarations do.
pub open spec fn is_grouping(uuid: AttUuid) -> bool {
    is_alias(uuid, PRIMARY_SERVICE_UUID16) || is_alias(uuid, CHARACTERISTIC_UUID16)
}

/// Compares an attribute type with a 16-bit alias by rubble's
/// `PartialEq<Uuid16> for AttUuid`. Two aliases are equal when their
/// numbers are; a full identifier equals an alias when it is the base
/// identifier `0000xxxx-0000-1000-8000-00805F9B34FB`, held in big-endian
/// byte order, with the alias in place of `xxxx`.
#[verifier::external_body]
fn uuid_equals_alias(uuid: &AttUuid, short: u16) -> (r: bool)
    ensures
        r == is_alias(*uuid, short),
{
    let outside = match uuid {
        AttUuid::Uuid16(a) => rubble::att::AttUuid::Uuid16(rubble::uuid::Uuid16(*a)),
        AttUuid::Uuid128(b) => rubble::att::AttUuid::Uuid128(
            rubble::uuid::Uuid128::from_bytes(*b),
        ),
    };
    outside == rubble::uuid::Uuid16(short)
}

/// The attribute table together with the backing state of its writable
/// characteristic.
pub struct RomiServiceAttrs {
    state: [u8; 2],
}

impl View for RomiServiceAttrs {
    type V = Seq<u8>;

    /// The backing state.
    closed spec fn view(&self) -> Seq<u8> {
        self.state@
    }
}

impl RomiServiceAttrs {
    /// The table with the backing state at its start-up value.
    pub fn new() -> (attrs: Self)
        ensures
            attrs@ == initial_state(),
    {
        let attrs = RomiServiceAttrs { state: [0x12, 0x34] };
        assert(attrs.state@ =~= initial_state());
        attrs
    }

    /// Replaces the backing state.
    pub fn update_data(&mut self, new_data: &[u8; 2])
        ensures
            final(self)@ == new_data@,
    {
        self.state = *new_data;
    }

    /// The backing state.
    pub fn state(&self) -> (s: [u8; 2])
        ensures
            s@ == self@,
            self@.len() == 2,
    {
        self.state
    }

    /// The attribute with handle `handle`.
    pub fn attribute(&self, handle: u16) -> (a: Option<Attribute>)
        ensures
            self@.len() == 2,
            (1 <= handle <= ATTRIBUTE_COUNT) <==> a.is_some(),
            a.is_some() ==> a.unwrap()@ == table(self@)[handle - 1],
    {
        if handle == 1 {
            let value: Vec<u8> = vec![
                0x70u8, 0x6Cu8, 0x98u8, 0x41u8, 0xCEu8, 0x43u8, 0x14u8, 0xA9u8,
                0xB5u8, 0x4Du8, 0x22u8, 0x2Bu8, 0x89u8, 0x10u8, 0xE6u8, 0x32u8,
            ];
            assert(value@ =~= service_uuid_bytes());
            Some(Attribute { att_type: AttUuid::Uuid16(PRIMARY_SERVICE_UUID16), handle, value })
        } else if handle == 2 {
            let value: Vec<u8> = vec![
                0x1Eu8, 0x03u8, 0x00u8,
                0x70u8, 0x6Cu8, 0x98u8, 0x41u8, 0xCEu8, 0x43u8, 0x14u8, 0xA9u8,
                0xB5u8, 0x4Du8, 0x22u8, 0x2Bu8, 0x8Au8, 0x10u8, 0xE6u8, 0x32u8,
            ];
            assert(value@ =~= characteristic_declaration());
            Some(Attribute { att_type: AttUuid::Uuid16(CHARACTERISTIC_UUID16), handle, value })
        } else if handle == LED_CHAR_VALUE_HANDLE {
            let uuid: [u8; 16] = [
                0x70u8, 0x6Cu8, 0x98u8, 0x41u8, 0xCEu8, 0x43u8, 0x14u8, 0xA9u8,
                0xB5u8, 0x4Du8, 0x22u8, 0x2Bu8, 0x8Au8, 0x10u8, 0xE6u8, 0x32u8,
            ];
            assert(uuid =~= characteristic_uuid());
            let value: Vec<u8> = vec![self.state[0], self.state[1]];
            assert(value@ =~= self.state@);
            Some(Attribute { att_type: AttUuid::Uuid128(uuid), handle, value })
        } else if handle == 4 {
            let value: Vec<u8> = vec![0x00u8, 0x00u8];
            assert(value@ =~= seq![0x00u8, 0x00u8]);
            Some(Attribute { att_type: AttUuid::Uuid16(CLIENT_CONFIG_UUID16), handle, value })
        } else {
            None
        }
    }

    /// The attributes whose handles lie in the inclusive range from `start`
    /// to `end`, in handle order.
    pub fn attributes_in_range(&self, start: u16, end: u16) -> (attrs: Vec<Attribute>)
        ensures
            models(attrs@) == in_range(table(self@), start, end),
            attrs.len() == in_range(table(self@), start, end).len(),
            forall|j: int|
                0 <= j < attrs.len() ==> (#[trigger] attrs[j])@ == in_range(
                    table(self@),
                    start,
                    end,
                )[j],
    {
        let first: u16 = if start == 0 {
            1
        } else {
            start
        };
        let last: u16 = if end > ATTRIBUTE_COUNT {
            ATTRIBUTE_COUNT
        } else {
            end
        };
        let mut attrs: Vec<Attribute> = Vec::new();
        if first > last {
            assert(models(attrs@) =~= in_range(table(self@), start, end));
            return attrs;
        }
        let mut handle: u16 = first;
        while handle <= last
            invariant
                1 <= first <= handle <= last + 1,
                last <= ATTRIBUTE_COUNT,
                models(attrs@) =~= table(self@).subrange(first - 1, handle - 1),
            decreases last + 1 - handle,
        {
            let ghost before = attrs@;
            match self.attribute(handle) {
                Some(a) => {
                    attrs.push(a);
                    assert(models(attrs@) =~= models(before).push(a@));
                },
                None => {},
            }
            handle = handle + 1;
        }
        assert forall|j: int| 0 <= j < attrs.len() implies (#[trigger] attrs[j])@ == in_range(
            table(self@),
            start,
            end,
        )[j] by {
            assert(models(attrs@)[j] == attrs[j]@);
        }
        attrs
    }

    /// Says what a client may do with the attribute with handle `handle`.
    pub fn attr_access_permissions(&self, handle: u16) -> (p: AttributeAccessPermissions)
        ensures
            p == access_permissions(handle),
            (p is Writeable || p is ReadableAndWriteable) <==> is_writable_handle(handle),
    {
        if handle == LED_CHAR_VALUE_HANDLE {
            AttributeAccessPermissions::ReadableAndWriteable
        } else {
            AttributeAccessPermissions::Readable
        }
    }

    /// Says whether attributes of type `uuid` start a group.
    pub fn is_grouping_attr(&self, uuid: AttUuid) -> (r: bool)
        ensures
            r == is_grouping(uuid),
    {
        uuid_equals_alias(&uuid, PRIMARY_SERVICE_UUID16) || uuid_equals_alias(
            &uuid,
            CHARACTERISTIC_UUID16,
        )
    }

    /// The attribute that ends the group of the attribute with handle
    /// `handle`: the last one of the table for a handle below the number of
    /// attributes, none for any other.
    pub fn group_end(&self, handle: u16) -> (a: Option<Attribute>)
        ensures
            a.is_some() <==> handle < ATTRIBUTE_COUNT,
            a.is_some() ==> a.unwrap()@ == table(self@).last(),
    {
        if handle < ATTRIBUTE_COUNT {
            self.attribute(ATTRIBUTE_COUNT)
        } else {
            None
        }
    }
}

/// The handles of the table are the numbers from one on, without a gap.
pub proof fn lemma_handles_dense(state: Seq<u8>)
    ensures
        table(state).len() == ATTRIBUTE_COUNT,
        forall|k: int| 0 <= k < ATTRIBUTE_COUNT ==> (#[trigger] table(state)[k]).handle == k + 1,
{
}

/// The attributes that a range gives are those of the table whose handles
/// lie in the range, each once and in handle order.
pub proof fn lemma_in_range_by_handle(state: Seq<u8>, start: u16, end: u16)
    ensures
        forall|k: int|
            0 <= k < ATTRIBUTE_COUNT ==> (in_range(table(state), start, end).contains(
                #[trigger] table(state)[k],
            ) <==> start <= table(state)[k].handle <= end),
        forall|j: int|
            0 <= j < in_range(table(state), start, end).len() ==> (#[trigger] in_range(
                table(state),
                start,
                end,
            )[j]).handle == first_in_range(start) + j,
{
    let t = table(state);
    let r = in_range(t, start, end);
    lemma_handles_dense(state);
    assert forall|k: int| 0 <= k < ATTRIBUTE_COUNT implies (r.contains(#[trigger] t[k]) <==> start
        <= t[k].handle <= end) by {
        if start <= t[k].handle <= end {
            assert(r[k + 1 - first_in_range(start)] == t[k]);
        }
        if r.contains(t[k]) {
            let j = choose|j: int| 0 <= j < r.len() && r[j] == t[k];
            assert(r[j] == t[j + first_in_range(start) - 1]);
        }
    }
}

} // verus!
