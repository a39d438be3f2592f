//! Managed values and their ownership tags.
use vstd::prelude::*;

verus! {

/// Bit of a packed ownership tag that allows the virtual machine to read.
pub const GCINFO_READ_MASK: u8 = 0x01;

/// Bit of a packed ownership tag that allows the virtual machine to write.
pub const GCINFO_WRITE_MASK: u8 = 0x02;

/// Both permission bits of a packed ownership tag.
pub const GCINFO_RW_MASK: u8 = 0x03;

/// The ownership state of a value, seen from the virtual machine.
///
/// Each state packs into one byte. Bit 0 grants reading and bit 1 grants
/// writing; the bits above them say where the storage lives: in the managed
/// heap (`Owned`, `SharedToHost`, `MutSharedToHost`), in native memory
/// (`SharedFromHost`, `MutSharedFromHost`, `MutSharedBackToHost`), or nowhere
/// that lasts (`TempObject`, `MovedToHost`). Clearing both permission bits of
/// any state gives a state again.
///
/// `MutSharedToHost` and `MutSharedBackToHost` are held only while native
/// code has a mutable borrow of the value.
#[derive(Clone, Copy, Debug, PartialEq, Eq, Structural)]
pub enum GcInfo {
    /// Owned by the managed heap, no native reference outstanding.
    Owned,
    /// An immutable reference has been lent to native code.
    SharedToHost,
    /// The value is an immutable reference into native-owned memory.
    SharedFromHost,
    /// The value is a mutable window into native-owned memory.
    MutSharedFromHost,
    /// Ownership has gone to native code; the value must not be used again.
    MovedToHost,
    /// Ephemeral, valid only for reading.
    TempObject,
    /// A heap-owned value while native code borrows it mutably.
    MutSharedToHost,
    /// A window into native memory while native code borrows it back mutably.
    MutSharedBackToHost,
}

impl GcInfo {
    /// The packed byte of this state.
    pub open spec fn spec_bits(self) -> u8 {
        match self {
            GcInfo::MutSharedToHost => 0x00,
            GcInfo::SharedToHost => 0x01,
            GcInfo::Owned => 0x03,
            GcInfo::MutSharedBackToHost => 0x04,
            GcInfo::SharedFromHost => 0x05,
            GcInfo::MutSharedFromHost => 0x06,
            GcInfo::MovedToHost => 0x08,
            GcInfo::TempObject => 0x09,
        }
    }

    /// The state that packs into `bits`, if there is one.
    pub open spec fn spec_from_bits(bits: u8) -> Option<GcInfo> {
        if bits == 0x00 {
            Some(GcInfo::MutSharedToHost)
        } else if bits == 0x01 {
            Some(GcInfo::SharedToHost)
        } else if bits == 0x03 {
            Some(GcInfo::Owned)
        } else if bits == 0x04 {
            Some(GcInfo::MutSharedBackToHost)
        } else if bits == 0x05 {
            Some(GcInfo::SharedFromHost)
        } else if bits == 0x06 {
            Some(GcInfo::MutSharedFromHost)
        } else if bits == 0x08 {
            Some(GcInfo::MovedToHost)
        } else if bits == 0x09 {
            Some(GcInfo::TempObject)
        } else {
            None
        }
    }

    /// Whether the virtual machine may read a value in this state.
    pub open spec fn is_readable(self) -> bool {
        self == GcInfo::Owned || self == GcInfo::SharedFromHost || self == GcInfo::SharedToHost
            || self == GcInfo::TempObject
    }

    /// Whether the virtual machine may write a value in this state.
    pub open spec fn is_writable(self) -> bool {
        self == GcInfo::MutSharedFromHost || self == GcInfo::Owned
    }

    /// This state with both permissions taken away.
    pub open spec fn spec_without_access(self) -> GcInfo {
        match self {
            GcInfo::Owned | GcInfo::SharedToHost | GcInfo::MutSharedToHost => GcInfo::MutSharedToHost,
            GcInfo::SharedFromHost | GcInfo::MutSharedFromHost | GcInfo::MutSharedBackToHost =>
                GcInfo::MutSharedBackToHost,
            GcInfo::TempObject | GcInfo::MovedToHost => GcInfo::MovedToHost,
        }
    }

    /// Packs the state into its byte.
    pub fn bits(self) -> (r: u8)
        ensures
            r == self.spec_bits(),
            GcInfo::spec_from_bits(r) == Some(self),
    {
        match self {
            GcInfo::MutSharedToHost => 0x00,
            GcInfo::SharedToHost => 0x01,
            GcInfo::Owned => 0x03,
            GcInfo::MutSharedBackToHost => 0x04,
            GcInfo::SharedFromHost => 0x05,
            GcInfo::MutSharedFromHost => 0x06,
            GcInfo::MovedToHost => 0x08,
            GcInfo::TempObject => 0x09,
        }
    }

    /// Unpacks a byte. A byte that no state packs into gives `None`.
    pub fn from_bits(bits: u8) -> (r: Option<GcInfo>)
        ensures
            r == GcInfo::spec_from_bits(bits),
            r matches Some(info) ==> info.spec_bits() == bits,
            r is None ==> forall|info: GcInfo| info.spec_bits() != bits,
    {
        if bits == 0x00 {
            Some(GcInfo::MutSharedToHost)
        } else if bits == 0x01 {
            Some(GcInfo::SharedToHost)
        } else if bits == 0x03 {
            Some(GcInfo::Owned)
        } else if bits == 0x04 {
            Some(GcInfo::MutSharedBackToHost)
        } else if bits == 0x05 {
            Some(GcInfo::SharedFromHost)
        } else if bits == 0x06 {
            Some(GcInfo::MutSharedFromHost)
        } else if bits == 0x08 {
            Some(GcInfo::MovedToHost)
        } else if bits == 0x09 {
            Some(GcInfo::TempObject)
        } else {
            None
        }
    }

    /// Tests the read bit of the packed byte.
    pub fn readable(self) -> (r: bool)
        ensures
            r == self.is_readable(),
            r == (self.spec_bits() & GCINFO_READ_MASK != 0),
    {
        let bits: u8 = self.bits();
        proof {
            lemma_masks(bits);
        }
        bits & GCINFO_READ_MASK != 0
    }

    /// Tests the write bit of the packed byte.
    pub fn writable(self) -> (r: bool)
        ensures
            r == self.is_writable(),
            r == (self.spec_bits() & GCINFO_WRITE_MASK != 0),
    {
        let bits: u8 = self.bits();
        proof {
            lemma_masks(bits);
        }
        bits & GCINFO_WRITE_MASK != 0
    }

    /// Clears both permission bits of the packed byte and gives the state
    /// that the result packs into.
    pub fn without_access(self) -> (r: GcInfo)
        ensures
            r == self.spec_without_access(),
            r.spec_bits() == self.spec_bits() & !GCINFO_RW_MASK,
            !r.is_readable(),
            !r.is_writable(),
    {
        let bits: u8 = self.bits();
        proof {
            lemma_masks(bits);
        }
        let cleared: u8 = bits & !GCINFO_RW_MASK;
        match GcInfo::from_bits(cleared) {
            Some(info) => info,
            None => self,
        }
    }
}

/// What the three masks select from each byte that a state packs into.
proof fn lemma_masks(bits: u8)
    ensures
        (bits == 0x00 ==> bits & 0x01 == 0 && bits & 0x02 == 0 && bits & !0x03u8 == 0x00),
        (bits == 0x01 ==> bits & 0x01 != 0 && bits & 0x02 == 0 && bits & !0x03u8 == 0x00),
        (bits == 0x03 ==> bits & 0x01 != 0 && bits & 0x02 != 0 && bits & !0x03u8 == 0x00),
        (bits == 0x04 ==> bits & 0x01 == 0 && bits & 0x02 == 0 && bits & !0x03u8 == 0x04),
        (bits == 0x05 ==> bits & 0x01 != 0 && bits & 0x02 == 0 && bits & !0x03u8 == 0x04),
        (bits == 0x06 ==> bits & 0x01 == 0 && bits & 0x02 != 0 && bits & !0x03u8 == 0x04),
        (bits == 0x08 ==> bits & 0x01 == 0 && bits & 0x02 == 0 && bits & !0x03u8 == 0x08),
        (bits == 0x09 ==> bits & 0x01 != 0 && bits & 0x02 == 0 && bits & !0x03u8 == 0x08),
{
    assert((bits == 0x00 ==> bits & 0x01 == 0 && bits & 0x02 == 0 && bits & !0x03u8 == 0x00)
        && (bits == 0x01 ==> bits & 0x01 != 0 && bits & 0x02 == 0 && bits & !0x03u8 == 0x00)
        && (bits == 0x03 ==> bits & 0x01 != 0 && bits & 0x02 != 0 && bits & !0x03u8 == 0x00)
        && (bits == 0x04 ==> bits & 0x01 == 0 && bits & 0x02 == 0 && bits & !0x03u8 == 0x04)
        && (bits == 0x05 ==> bits & 0x01 != 0 && bits & 0x02 == 0 && bits & !0x03u8 == 0x04)
        && (bits == 0x06 ==> bits & 0x01 == 0 && bits & 0x02 != 0 && bits & !0x03u8 == 0x04)
        && (bits == 0x08 ==> bits & 0x01 == 0 && bits & 0x02 == 0 && bits & !0x03u8 == 0x08)
        && (bits == 0x09 ==> bits & 0x01 != 0 && bits & 0x02 == 0 && bits & !0x03u8 == 0x08)) by (bit_vector);
}

/// Taking both permissions away clears both permission bits of the packed
/// byte, and leaves a state that can be neither read nor written.
pub proof fn lemma_without_access(tag: GcInfo)
    ensures
        tag.spec_without_access().spec_bits() == tag.spec_bits() & !GCINFO_RW_MASK,
        !tag.spec_without_access().is_readable(),
        !tag.spec_without_access().is_writable(),
        tag.spec_without_access().spec_without_access() == tag.spec_without_access(),
{
    lemma_masks(tag.spec_bits());
}

/// What a value handle carries besides its ownership tag.
#[derive(Clone, Copy, Debug, PartialEq, Eq, Structural)]
pub enum ValueData {
    /// An inline scalar.
    Int(i64),
    /// The address of a boxed object in the managed heap; address 0 is null.
    Boxed(usize),
}

/// A handle to a managed value: an inline scalar or the address of a boxed
/// object, together with the ownership tag of what it refers to.
///
/// A handle is copied freely; copying one changes no ownership.
#[derive(Clone, Copy, Debug, PartialEq, Eq, Structural)]
pub struct Value {
    pub data: ValueData,
    pub gc_info: GcInfo,
}

impl Value {
    /// Whether the handle is the null handle, which stands for absence.
    pub open spec fn spec_is_null(self) -> bool {
        self.data == ValueData::Boxed(0)
    }

    /// Whether the handle carries an inline scalar.
    pub open spec fn spec_is_value(self) -> bool {
        self.data is Int
    }

    /// The null handle. Its tag is `Owned`.
    pub fn null() -> (r: Value)
        ensures
            r == (Value { data: ValueData::Boxed(0), gc_info: GcInfo::Owned }),
            r.spec_is_null(),
    {
        Value { data: ValueData::Boxed(0), gc_info: GcInfo::Owned }
    }

    /// A handle that carries `scalar` inline, in state `Owned`.
    pub fn from_int(scalar: i64) -> (r: Value)
        ensures
            r == (Value { data: ValueData::Int(scalar), gc_info: GcInfo::Owned }),
    {
        Value { data: ValueData::Int(scalar), gc_info: GcInfo::Owned }
    }

    /// A handle to the boxed object at `address`, in state `gc_info`.
    pub fn boxed(address: usize, gc_info: GcInfo) -> (r: Value)
        ensures
            r == (Value { data: ValueData::Boxed(address), gc_info }),
            r.spec_is_null() <==> address == 0,
    {
        Value { data: ValueData::Boxed(address), gc_info }
    }

    /// Whether the handle is null.
    pub fn is_null(&self) -> (r: bool)
        ensures
            r == self.spec_is_null(),
    {
        match self.data {
            ValueData::Boxed(address) => address == 0,
            ValueData::Int(_) => false,
        }
    }

    /// Whether the handle carries an inline scalar.
    pub fn is_value(&self) -> (r: bool)
        ensures
            r == self.spec_is_value(),
    {
        match self.data {
            ValueData::Int(_) => true,
            ValueData::Boxed(_) => false,
        }
    }

    /// The current ownership state.
    pub fn gc_info(&self) -> (r: GcInfo)
        ensures
            r == self.gc_info,
    {
        self.gc_info
    }

    /// Moves the value to state `to`. Whether the move is legal is for the
    /// caller to have settled; nothing but the tag changes.
    pub fn set_gc_info(&mut self, to: GcInfo)
        ensures
            *final(self) == (Value { data: old(self).data, gc_info: to }),
    {
        self.gc_info = to;
    }
}

} // verus!
