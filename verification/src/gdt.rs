//! The tagged-value container for persisted game-state flags.
//!
//! A [`Flag`] pairs a live value with the shared initial value it
//! resets to, a name hash, optional clamping bounds, and a property
//! bit set. The packing format of the two flag archives is decoded by
//! the `unpack` functions at the bottom.

use vstd::prelude::*;

use crate::arena::{mem_read_u32, u32_as_i32};

verus! {

/// Property bit: the program may read the flag.
pub const PROP_READABLE: u8 = 0x1;

/// Property bit: the program may write the flag.
pub const PROP_WRITABLE: u8 = 0x2;

/// Property bit: the flag is persisted to save data.
pub const PROP_SAVE: u8 = 0x4;

/// An index argument for the flag array accessors: any integer type,
/// with out-of-range values denoting no index.
pub trait FlagIndex: Sized {
    /// The index this value denotes, if any.
    spec fn index_spec(self) -> Option<int>;

    /// Convert to a concrete index.
    fn to_index(self) -> (r: Option<usize>)
        ensures
            match self.index_spec() {
                Some(i) => r == Some(i as usize) && 0 <= i <= usize::MAX,
                None => r is None,
            },
    ;
}

impl FlagIndex for u8 {
    open spec fn index_spec(self) -> Option<int> {
        Some(self as int)
    }

    fn to_index(self) -> (r: Option<usize>) {
        Some(self as usize)
    }
}

impl FlagIndex for u16 {
    open spec fn index_spec(self) -> Option<int> {
        Some(self as int)
    }

    fn to_index(self) -> (r: Option<usize>) {
        Some(self as usize)
    }
}

impl FlagIndex for u32 {
    open spec fn index_spec(self) -> Option<int> {
        Some(self as int)
    }

    fn to_index(self) -> (r: Option<usize>) {
        Some(self as usize)
    }
}

impl FlagIndex for usize {
    open spec fn index_spec(self) -> Option<int> {
        Some(self as int)
    }

    fn to_index(self) -> (r: Option<usize>) {
        Some(self)
    }
}

impl FlagIndex for u64 {
    open spec fn index_spec(self) -> Option<int> {
        if self > usize::MAX {
            None
        } else {
            Some(self as int)
        }
    }

    fn to_index(self) -> (r: Option<usize>) {
        if self > usize::MAX as u64 {
            None
        } else {
            Some(self as usize)
        }
    }
}

impl FlagIndex for i8 {
    open spec fn index_spec(self) -> Option<int> {
        if self < 0 {
            None
        } else {
            Some(self as int)
        }
    }

    fn to_index(self) -> (r: Option<usize>) {
        if self < 0 {
            None
        } else {
            Some(self as usize)
        }
    }
}

impl FlagIndex for i16 {
    open spec fn index_spec(self) -> Option<int> {
        if self < 0 {
            None
        } else {
            Some(self as int)
        }
    }

    fn to_index(self) -> (r: Option<usize>) {
        if self < 0 {
            None
        } else {
            Some(self as usize)
        }
    }
}

impl FlagIndex for i32 {
    open spec fn index_spec(self) -> Option<int> {
        if self < 0 {
            None
        } else {
            Some(self as int)
        }
    }

    fn to_index(self) -> (r: Option<usize>) {
        if self < 0 {
            None
        } else {
            Some(self as usize)
        }
    }
}

impl FlagIndex for isize {
    open spec fn index_spec(self) -> Option<int> {
        if self < 0 {
            None
        } else {
            Some(self as int)
        }
    }

    fn to_index(self) -> (r: Option<usize>) {
        if self < 0 {
            None
        } else {
            Some(self as usize)
        }
    }
}

impl FlagIndex for i64 {
    open spec fn index_spec(self) -> Option<int> {
        if self < 0 || self > usize::MAX {
            None
        } else {
            Some(self as int)
        }
    }

    fn to_index(self) -> (r: Option<usize>) {
        if self < 0 {
            None
        } else if self as u64 > usize::MAX as u64 {
            None
        } else {
            Some(self as usize)
        }
    }
}

/// A type storable in a flag: a live value, the shared form its
/// initial value is kept in, the static form it is declared in, and
/// the element value type its bounds are expressed in. Conversions
/// are specified over deep views, so scalar and array flags share one
/// vocabulary.
pub trait FlagType: Sized + DeepView {
    type SharedType: DeepView;

    type StaticType: DeepView;

    type ValueType: Copy;

    /// What converting a shared value into a live value yields.
    spec fn from_shared_dv(v: <Self::SharedType as DeepView>::V) -> <Self as DeepView>::V;

    /// What converting a static value into the shared form yields.
    spec fn static_to_shared_dv(v: <Self::StaticType as DeepView>::V) -> <Self::SharedType as DeepView>::V;

    /// How a stored value is clamped to the flag's bounds.
    spec fn clamp_spec(value: Self, min: Self::ValueType, max: Self::ValueType) -> Self;

    /// The stub bound used when the bounds do not matter.
    spec fn stub_spec() -> Self::ValueType;

    fn from_shared(value: &Self::SharedType) -> (r: Self)
        ensures
            r.deep_view() == Self::from_shared_dv(value.deep_view()),
    ;

    fn from_static(value: Self::StaticType) -> (r: Self)
        ensures
            r.deep_view() == Self::from_shared_dv(Self::static_to_shared_dv(value.deep_view())),
    ;

    fn static_to_shared(value: Self::StaticType) -> (r: Self::SharedType)
        ensures
            r.deep_view() == Self::static_to_shared_dv(value.deep_view()),
    ;

    fn clamp(value: Self, min: Self::ValueType, max: Self::ValueType) -> (r: Self)
        ensures
            r == Self::clamp_spec(value, min, max),
    ;

    fn stub() -> (r: Self::ValueType)
        ensures
            r == Self::stub_spec(),
    ;

    /// An explicit copy of the value.
    fn duplicate(&self) -> (r: Self)
        ensures
            r.deep_view() == self.deep_view(),
    ;

    /// An explicit copy of a static value.
    fn dup_static(v: &Self::StaticType) -> (r: Self::StaticType)
        ensures
            r.deep_view() == v.deep_view(),
    ;
}

impl FlagType for bool {
    type SharedType = bool;

    type StaticType = bool;

    type ValueType = bool;

    open spec fn from_shared_dv(v: bool) -> bool {
        v
    }

    open spec fn static_to_shared_dv(v: bool) -> bool {
        v
    }

    open spec fn clamp_spec(value: bool, min: bool, max: bool) -> bool {
        value
    }

    open spec fn stub_spec() -> bool {
        false
    }

    fn from_shared(value: &bool) -> (r: bool) {
        *value
    }

    fn from_static(value: bool) -> (r: bool) {
        value
    }

    fn static_to_shared(value: bool) -> (r: bool) {
        value
    }

    fn clamp(value: bool, min: bool, max: bool) -> (r: bool) {
        value
    }

    fn stub() -> (r: bool) {
        false
    }

    fn duplicate(&self) -> (r: bool) {
        *self
    }

    fn dup_static(v: &bool) -> (r: bool) {
        *v
    }
}

impl FlagType for i32 {
    type SharedType = i32;

    type StaticType = i32;

    type ValueType = i32;

    open spec fn from_shared_dv(v: i32) -> i32 {
        v
    }

    open spec fn static_to_shared_dv(v: i32) -> i32 {
        v
    }

    open spec fn clamp_spec(value: i32, min: i32, max: i32) -> i32 {
        if value < min {
            min
        } else if value > max {
            max
        } else {
            value
        }
    }

    open spec fn stub_spec() -> i32 {
        0
    }

    fn from_shared(value: &i32) -> (r: i32) {
        *value
    }

    fn from_static(value: i32) -> (r: i32) {
        value
    }

    fn static_to_shared(value: i32) -> (r: i32) {
        value
    }

    fn clamp(value: i32, min: i32, max: i32) -> (r: i32) {
        if value < min {
            min
        } else if value > max {
            max
        } else {
            value
        }
    }

    fn stub() -> (r: i32) {
        0
    }

    fn duplicate(&self) -> (r: i32) {
        *self
    }

    fn dup_static(v: &i32) -> (r: i32) {
        *v
    }
}

/// The storage of array flags.
pub type ArrayFlagType<T> = Vec<T>;

impl<T: FlagType> FlagType for Vec<T> {
    type SharedType = Vec<T>;

    type StaticType = Vec<T::StaticType>;

    type ValueType = T::ValueType;

    open spec fn from_shared_dv(v: Seq<<T as DeepView>::V>) -> Seq<<T as DeepView>::V> {
        v
    }

    open spec fn static_to_shared_dv(v: Seq<<T::StaticType as DeepView>::V>) -> Seq<
        <T as DeepView>::V,
    > {
        v.map_values(|x: <T::StaticType as DeepView>::V| T::from_shared_dv(T::static_to_shared_dv(x)))
    }

    open spec fn clamp_spec(value: Vec<T>, min: T::ValueType, max: T::ValueType) -> Vec<T> {
        value
    }

    open spec fn stub_spec() -> T::ValueType {
        T::stub_spec()
    }

    fn from_shared(value: &Vec<T>) -> (r: Vec<T>) {
        let mut out: Vec<T> = Vec::new();
        let mut i: usize = 0;
        while i < value.len()
            invariant
                i <= value@.len(),
                out@.len() == i,
                forall|j: int|
                    0 <= j < i ==> #[trigger] out@[j].deep_view() == value@[j].deep_view(),
            decreases value@.len() - i,
        {
            out.push(value[i].duplicate());
            i = i + 1;
        }
        proof {
            assert(out.deep_view() =~= value.deep_view());
        }
        out
    }

    fn from_static(value: Vec<T::StaticType>) -> (r: Vec<T>) {
        let mut out: Vec<T> = Vec::new();
        let mut i: usize = 0;
        while i < value.len()
            invariant
                i <= value@.len(),
                out@.len() == i,
                forall|j: int|
                    0 <= j < i ==> #[trigger] out@[j].deep_view() == T::from_shared_dv(
                        T::static_to_shared_dv(value.deep_view()[j]),
                    ),
            decreases value@.len() - i,
        {
            let x = T::dup_static(&value[i]);
            out.push(T::from_static(x));
            i = i + 1;
        }
        proof {
            assert(out.deep_view() =~= Self::from_shared_dv(
                Self::static_to_shared_dv(value.deep_view()),
            ));
        }
        out
    }

    fn static_to_shared(value: Vec<T::StaticType>) -> (r: Vec<T>) {
        Self::from_static(value)
    }

    fn clamp(value: Vec<T>, min: T::ValueType, max: T::ValueType) -> (r: Vec<T>) {
        value
    }

    fn stub() -> (r: T::ValueType) {
        T::stub()
    }

    fn duplicate(&self) -> (r: Vec<T>) {
        let mut out: Vec<T> = Vec::new();
        let mut i: usize = 0;
        while i < self.len()
            invariant
                i <= self@.len(),
                out@.len() == i,
                forall|j: int|
                    0 <= j < i ==> #[trigger] out@[j].deep_view() == self@[j].deep_view(),
            decreases self@.len() - i,
        {
            out.push(self[i].duplicate());
            i = i + 1;
        }
        proof {
            assert(out.deep_view() =~= self.deep_view());
        }
        out
    }

    fn dup_static(v: &Vec<T::StaticType>) -> (r: Vec<T::StaticType>) {
        let mut out: Vec<T::StaticType> = Vec::new();
        let mut i: usize = 0;
        while i < v.len()
            invariant
                i <= v@.len(),
                out@.len() == i,
                forall|j: int|
                    0 <= j < i ==> #[trigger] out@[j].deep_view() == v@[j].deep_view(),
            decreases v@.len() - i,
        {
            out.push(T::dup_static(&v[i]));
            i = i + 1;
        }
        proof {
            assert(out.deep_view() =~= v.deep_view());
        }
        out
    }
}

/// One game-state flag: the live value, the shared initial value it
/// resets to, the name hash, the clamping bounds, and the property
/// bits.
pub struct Flag<T: FlagType> {
    pub value: T,
    pub initial_value: T::SharedType,
    pub hash: i32,
    pub min: T::ValueType,
    pub max: T::ValueType,
    pub properties: u8,
}

impl<T: FlagType> Flag<T> {
    /// A flag without meaningful bounds: both bounds are the stub.
    pub fn new(hash: i32, initial_value: T::StaticType, properties: u8) -> (r: Self)
        ensures
            r.value.deep_view() == T::from_shared_dv(
                T::static_to_shared_dv(initial_value.deep_view()),
            ),
            r.initial_value.deep_view() == T::static_to_shared_dv(initial_value.deep_view()),
            r.hash == hash,
            r.min == T::stub_spec(),
            r.max == T::stub_spec(),
            r.properties == properties,
    {
        let shared = T::static_to_shared(T::dup_static(&initial_value));
        let value = T::from_static(initial_value);
        Flag { value, initial_value: shared, hash, min: T::stub(), max: T::stub(), properties }
    }

    /// A flag with explicit clamping bounds.
    pub fn new_minmax(
        hash: i32,
        initial_value: T::StaticType,
        properties: u8,
        min: T::ValueType,
        max: T::ValueType,
    ) -> (r: Self)
        ensures
            r.value.deep_view() == T::from_shared_dv(
                T::static_to_shared_dv(initial_value.deep_view()),
            ),
            r.initial_value.deep_view() == T::static_to_shared_dv(initial_value.deep_view()),
            r.hash == hash,
            r.min == min,
            r.max == max,
            r.properties == properties,
    {
        let shared = T::static_to_shared(T::dup_static(&initial_value));
        let value = T::from_static(initial_value);
        Flag { value, initial_value: shared, hash, min, max, properties }
    }

    /// The live value.
    pub fn get(&self) -> (r: &T)
        ensures
            r == &self.value,
    {
        &self.value
    }

    /// Store a value, clamped to the flag's bounds.
    pub fn set(&mut self, value: T)
        ensures
            final(self).value == T::clamp_spec(value, old(self).min, old(self).max),
            final(self).initial_value == old(self).initial_value,
            final(self).hash == old(self).hash,
            final(self).min == old(self).min,
            final(self).max == old(self).max,
            final(self).properties == old(self).properties,
    {
        self.value = T::clamp(value, self.min, self.max);
    }

    /// Restore the initial value.
    pub fn reset(&mut self)
        ensures
            final(self).value.deep_view() == T::from_shared_dv(
                old(self).initial_value.deep_view(),
            ),
            final(self).initial_value == old(self).initial_value,
            final(self).hash == old(self).hash,
            final(self).min == old(self).min,
            final(self).max == old(self).max,
            final(self).properties == old(self).properties,
    {
        self.value = T::from_shared(&self.initial_value);
    }

    /// The name hash.
    pub fn hash(&self) -> (r: i32)
        ensures
            r == self.hash,
    {
        self.hash
    }

    /// The upper bound.
    pub fn max(&self) -> (r: T::ValueType)
        ensures
            r == self.max,
    {
        self.max
    }

    /// Is the program-readable property bit set?
    pub fn readable(&self) -> (r: bool)
        ensures
            r == (self.properties & PROP_READABLE != 0),
    {
        self.properties & PROP_READABLE != 0
    }

    /// Is the program-writable property bit set?
    pub fn writable(&self) -> (r: bool)
        ensures
            r == (self.properties & PROP_WRITABLE != 0),
    {
        self.properties & PROP_WRITABLE != 0
    }

    /// Is the save property bit set?
    pub fn savable(&self) -> (r: bool)
        ensures
            r == (self.properties & PROP_SAVE != 0),
    {
        self.properties & PROP_SAVE != 0
    }
}

impl<T: FlagType> Flag<ArrayFlagType<T>> {
    /// Number of elements of an array flag.
    pub fn len(&self) -> (r: usize)
        ensures
            r == self.value@.len(),
    {
        self.value.len()
    }

    /// The element at `idx`, if the index is valid.
    pub fn get_at<I: FlagIndex>(&self, idx: I) -> (r: Option<&T>)
        ensures
            match (idx.index_spec(), r) {
                (Some(i), Some(x)) => 0 <= i < self.value@.len() && *x == self.value@[i],
                (Some(i), None) => !(0 <= i < self.value@.len()),
                (None, None) => true,
                (None, Some(_)) => false,
            },
    {
        match idx.to_index() {
            Some(i) => {
                if i < self.value.len() {
                    Some(&self.value[i])
                } else {
                    None
                }
            },
            None => None,
        }
    }

    /// Restore the element at `idx` to its initial value; the game
    /// implementation checks whether the index was valid.
    pub fn reset_at<I: FlagIndex>(&mut self, idx: I) -> (r: bool)
        ensures
            match idx.index_spec() {
                Some(i) => {
                    if 0 <= i < old(self).initial_value@.len() && i < old(self).value@.len() {
                        r == true && final(self).value.deep_view() == old(self).value.deep_view().update(i, old(self).initial_value.deep_view()[i])
                            && final(self).initial_value == old(self).initial_value && final(self).hash == old(self).hash && final(self).properties == old(self).properties
                            && final(self).min == old(self).min && final(self).max == old(self).max
                    } else {
                        r == false && *final(self) == *old(self)
                    }
                },
                None => r == false && *final(self) == *old(self),
            },
    {
        let i = match idx.to_index() {
            Some(i) => i,
            None => {
                return false;
            },
        };
        if i >= self.initial_value.len() {
            return false;
        }
        if i >= self.value.len() {
            return false;
        }
        let x = self.initial_value[i].duplicate();
        self.value[i] = x;
        proof {
            assert(self.value.deep_view() =~= old(self).value.deep_view().update(
                i as int,
                old(self).initial_value.deep_view()[i as int],
            ));
        }
        true
    }

    /// Store an element at `idx`; the game implementation checks
    /// whether the index was valid. Array elements are not clamped.
    pub fn set_at<I: FlagIndex>(&mut self, idx: I, value: T) -> (r: bool)
        ensures
            match idx.index_spec() {
                Some(i) => {
                    if 0 <= i < old(self).value@.len() {
                        r == true && final(self).value@ == old(self).value@.update(i, value)
                            && final(self).initial_value == old(self).initial_value && final(self).hash == old(self).hash && final(self).properties == old(self).properties
                            && final(self).min == old(self).min && final(self).max == old(self).max
                    } else {
                        r == false && *final(self) == *old(self)
                    }
                },
                None => r == false && *final(self) == *old(self),
            },
    {
        let i = match idx.to_index() {
            Some(i) => i,
            None => {
                return false;
            },
        };
        if i >= self.value.len() {
            return false;
        }
        self.value[i] = value;
        true
    }
}

/// Byte stride of one packed boolean flag.
pub const BOOL_FLAG_STRIDE: u64 = 5;

/// Byte stride of one packed signed flag.
pub const S32_FLAG_STRIDE: u64 = 17;

/// Decode a packed boolean-flag archive: each record is four hash
/// bytes little-endian, then one byte whose top bit is the initial
/// value and whose low five bits are the properties.
pub fn unpack_bool_flags(data: &[u8]) -> (r: Vec<Flag<bool>>)
    requires
        data@.len() as int % (BOOL_FLAG_STRIDE as int) == 0,
    ensures
        r@.len() == data@.len() as int / (BOOL_FLAG_STRIDE as int),
        forall|i: int|
            0 <= i < r@.len() ==> {
                let off = BOOL_FLAG_STRIDE * i;
                &&& (#[trigger] r@[i]).hash == u32_as_i32(mem_read_u32(0, data@, off))
                &&& r@[i].value == (data@[off + 4] & 0x80 != 0)
                &&& r@[i].initial_value == (data@[off + 4] & 0x80 != 0)
                &&& r@[i].properties == data@[off + 4] & 0x1F
            },
{
    let num_flags = data.len() / 5;
    let mut flags: Vec<Flag<bool>> = Vec::new();
    let mut i: usize = 0;
    while i < num_flags
        invariant
            i <= num_flags,
            num_flags == data@.len() as int / (BOOL_FLAG_STRIDE as int),
            data@.len() as int % (BOOL_FLAG_STRIDE as int) == 0,
            data@.len() <= usize::MAX,
            flags@.len() == i,
            forall|j: int|
                0 <= j < i ==> {
                    let off = BOOL_FLAG_STRIDE * j;
                    &&& (#[trigger] flags@[j]).hash == u32_as_i32(mem_read_u32(0, data@, off))
                    &&& flags@[j].value == (data@[off + 4] & 0x80 != 0)
                    &&& flags@[j].initial_value == (data@[off + 4] & 0x80 != 0)
                    &&& flags@[j].properties == data@[off + 4] & 0x1F
                },
        decreases num_flags - i,
    {
        proof {
            assert((i as int + 1) * 5 <= data@.len());
        }
        let off = i * 5;
        let b0 = data[off];
        let b1 = data[off + 1];
        let b2 = data[off + 2];
        let b3 = data[off + 3];
        let hash_bits = (b0 as u32) | ((b1 as u32) << 8) | ((b2 as u32) << 16) | ((b3 as u32)
            << 24);
        proof {
            assert(hash_bits > 0x7FFF_FFFF ==> hash_bits as int - 0x1_0000_0000 == (
            hash_bits as i32) as int) by (bit_vector);
        }
        let hash =
            #[verifier::truncate]
            (hash_bits as i32);
        let last_byte = data[off + 4];
        let initial_value = last_byte & 0x80 != 0;
        let properties = last_byte & 0x1F;
        flags.push(Flag::<bool>::new(hash, initial_value, properties));
        i = i + 1;
    }
    flags
}

/// Decode a packed signed-flag archive: each record is four
/// little-endian 32-bit scalars — hash, initial value, minimum,
/// maximum — then one byte whose low five bits are the properties.
pub fn unpack_s32_flags(data: &[u8]) -> (r: Vec<Flag<i32>>)
    requires
        data@.len() as int % (S32_FLAG_STRIDE as int) == 0,
    ensures
        r@.len() == data@.len() as int / (S32_FLAG_STRIDE as int),
        forall|i: int|
            0 <= i < r@.len() ==> {
                let off = S32_FLAG_STRIDE * i;
                &&& (#[trigger] r@[i]).hash == u32_as_i32(mem_read_u32(0, data@, off))
                &&& r@[i].value == u32_as_i32(mem_read_u32(0, data@, off + 4))
                &&& r@[i].initial_value == u32_as_i32(mem_read_u32(0, data@, off + 4))
                &&& r@[i].min == u32_as_i32(mem_read_u32(0, data@, off + 8))
                &&& r@[i].max == u32_as_i32(mem_read_u32(0, data@, off + 12))
                &&& r@[i].properties == data@[off + 16] & 0x1F
            },
{
    let num_flags = data.len() / 17;
    let mut flags: Vec<Flag<i32>> = Vec::new();
    let mut i: usize = 0;
    while i < num_flags
        invariant
            i <= num_flags,
            num_flags == data@.len() as int / (S32_FLAG_STRIDE as int),
            data@.len() as int % (S32_FLAG_STRIDE as int) == 0,
            data@.len() <= usize::MAX,
            flags@.len() == i,
            forall|j: int|
                0 <= j < i ==> {
                    let off = S32_FLAG_STRIDE * j;
                    &&& (#[trigger] flags@[j]).hash == u32_as_i32(mem_read_u32(0, data@, off))
                    &&& flags@[j].value == u32_as_i32(mem_read_u32(0, data@, off + 4))
                    &&& flags@[j].initial_value == u32_as_i32(mem_read_u32(0, data@, off + 4))
                    &&& flags@[j].min == u32_as_i32(mem_read_u32(0, data@, off + 8))
                    &&& flags@[j].max == u32_as_i32(mem_read_u32(0, data@, off + 12))
                    &&& flags@[j].properties == data@[off + 16] & 0x1F
                },
        decreases num_flags - i,
    {
        proof {
            assert((i as int + 1) * 17 <= data@.len());
        }
        let off = i * 17;
        let hash = read_le_i32(data, off);
        let initial_value = read_le_i32(data, off + 4);
        let min = read_le_i32(data, off + 8);
        let max = read_le_i32(data, off + 12);
        let properties = data[off + 16] & 0x1F;
        flags.push(Flag::<i32>::new_minmax(hash, initial_value, properties, min, max));
        i = i + 1;
    }
    flags
}

/// A little-endian signed 32-bit scalar read out of a byte slice.
fn read_le_i32(data: &[u8], off: usize) -> (r: i32)
    requires
        off + 4 <= data@.len(),
    ensures
        r == u32_as_i32(mem_read_u32(0, data@, off as int)),
{
    let b0 = data[off];
    let b1 = data[off + 1];
    let b2 = data[off + 2];
    let b3 = data[off + 3];
    let bits = (b0 as u32) | ((b1 as u32) << 8) | ((b2 as u32) << 16) | ((b3 as u32) << 24);
    proof {
        assert(bits > 0x7FFF_FFFF ==> bits as int - 0x1_0000_0000 == (bits as i32) as int)
            by (bit_vector);
    }
    #[verifier::truncate]
    (bits as i32)
}

} // verus!
