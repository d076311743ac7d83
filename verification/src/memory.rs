//! Linear memory and the little-endian codec of its accesses.

use vstd::prelude::*;

verus! {

/// The number of bytes in a page of linear memory.
pub const PAGE_SIZE: usize = 0x1_0000;

/// The greatest number of pages that a linear memory can have.
pub const MAX_PAGES: u32 = 0x1_0000;

/// The number that `bytes` spell in little-endian order: the first byte is
/// the least significant one.
pub open spec fn le_value(bytes: Seq<u8>) -> nat
    decreases bytes.len(),
{
    if bytes.len() == 0 {
        0
    } else {
        bytes.first() as nat + 256 * le_value(bytes.skip(1))
    }
}

/// The `width` bytes that spell the low digits of `value` in little-endian
/// order.
pub open spec fn le_bytes(value: nat, width: nat) -> Seq<u8>
    decreases width,
{
    if width == 0 {
        Seq::empty()
    } else {
        seq![(value % 256) as u8] + le_bytes(value / 256, (width - 1) as nat)
    }
}

/// 256 to the power of `width`: the number of values that `width` bytes can
/// spell.
pub open spec fn range(width: nat) -> nat
    decreases width,
{
    if width == 0 {
        1
    } else {
        256 * range((width - 1) as nat)
    }
}

/// Bytes spell a number below the range of their width.
pub proof fn lemma_le_value_in_range(bytes: Seq<u8>)
    ensures
        le_value(bytes) < range(bytes.len()),
    decreases bytes.len(),
{
    if bytes.len() > 0 {
        lemma_le_value_in_range(bytes.skip(1));
    }
}

/// Encoding has the width that was asked for.
pub proof fn lemma_le_bytes_len(value: nat, width: nat)
    ensures
        le_bytes(value, width).len() == width,
    decreases width,
{
    if width > 0 {
        lemma_le_bytes_len(value / 256, (width - 1) as nat);
    }
}

/// Storing what was loaded changes nothing: the bytes that spell a number are
/// the encoding of that number at their width.
pub proof fn lemma_store_of_load(bytes: Seq<u8>)
    ensures
        le_bytes(le_value(bytes), bytes.len()) == bytes,
    decreases bytes.len(),
{
    if bytes.len() > 0 {
        let rest = bytes.skip(1);
        lemma_store_of_load(rest);
        let value = le_value(bytes);
        assert(value % 256 == bytes.first() as nat);
        assert(value / 256 == le_value(rest));
        assert(le_bytes(value, bytes.len()) =~= seq![bytes.first()] + rest);
        assert(seq![bytes.first()] + rest =~= bytes);
    } else {
        assert(le_bytes(le_value(bytes), 0) =~= bytes);
    }
}

/// Loading what was stored gives the value back, if the value fits the width.
pub proof fn lemma_load_of_store(value: nat, width: nat)
    requires
        value < range(width),
    ensures
        le_value(le_bytes(value, width)) == value,
    decreases width,
{
    if width > 0 {
        let rest = le_bytes(value / 256, (width - 1) as nat);
        lemma_load_of_store(value / 256, (width - 1) as nat);
        let bytes = le_bytes(value, width);
        assert(bytes.first() == (value % 256) as u8);
        assert(bytes.skip(1) =~= rest);
    }
}

/// Every `u64` fits eight bytes, every `u32` four, every `u16` two and every
/// `u8` one.
pub proof fn lemma_ranges()
    ensures
        range(1) == 0x100,
        range(2) == 0x1_0000,
        range(4) == 0x1_0000_0000,
        range(8) == 0x1_0000_0000_0000_0000,
{
    reveal_with_fuel(range, 9);
}

/// The contents and the limit of a linear memory.
pub struct MemoryView {
    /// The bytes of the memory.
    pub bytes: Seq<u8>,
    /// The number of pages that the memory must not outgrow.
    pub maximum: u32,
}

impl MemoryView {
    /// The memory without any page that can grow up to `maximum` pages, or
    /// up to what a memory can have if `maximum` is `None`.
    pub open spec fn empty(maximum: Option<u32>) -> MemoryView {
        MemoryView {
            bytes: Seq::empty(),
            maximum: match maximum {
                Some(pages) => pages,
                None => MAX_PAGES,
            },
        }
    }

    /// The number of pages of the memory.
    pub open spec fn pages(self) -> nat {
        self.bytes.len() / (PAGE_SIZE as nat)
    }

    /// The access of `width` bytes at `address` lies within the memory. An
    /// access of no bytes lies within it if its address does.
    pub open spec fn in_bounds(self, address: u64, width: nat) -> bool {
        address + width <= self.bytes.len()
    }

    /// The bytes of the access of `width` bytes at `address`.
    pub open spec fn slice(self, address: u64, width: nat) -> Seq<u8> {
        self.bytes.subrange(address as int, address + width)
    }

    /// The number that a load of `width` bytes at `address` yields, or `None`
    /// if the access is out of bounds.
    pub open spec fn load(self, address: u64, width: nat) -> Option<nat> {
        if self.in_bounds(address, width) {
            Some(le_value(self.slice(address, width)))
        } else {
            None
        }
    }

    /// The memory after the low `width` bytes of `value` were stored at
    /// `address`, or `None` if the access is out of bounds.
    pub open spec fn store(self, address: u64, width: nat, value: nat) -> Option<MemoryView> {
        if self.in_bounds(address, width) {
            Some(
                MemoryView {
                    bytes: self.bytes.subrange(0, address as int) + le_bytes(value, width)
                        + self.bytes.subrange(address + width, self.bytes.len() as int),
                    ..self
                },
            )
        } else {
            None
        }
    }

    /// The memory after it grew by `delta` zeroed pages, if it can grow that
    /// far.
    pub open spec fn grow(self, delta: u32) -> Option<MemoryView> {
        match self.grown(delta) {
            Some(pages) => Some(
                MemoryView {
                    bytes: self.bytes + Seq::new(
                        (pages * PAGE_SIZE - self.bytes.len()) as nat,
                        |i: int| 0u8,
                    ),
                    ..self
                },
            ),
            None => None,
        }
    }

    /// The number of pages after growing by `delta`, if the memory can grow
    /// that far: not beyond its own maximum, nor beyond what a memory can
    /// have at all, nor beyond what this machine can address.
    pub open spec fn grown(self, delta: u32) -> Option<nat> {
        let pages = self.pages() + delta as nat;
        if pages <= self.maximum && pages <= MAX_PAGES && pages * PAGE_SIZE <= usize::MAX {
            Some(pages)
        } else {
            None
        }
    }
}

/// Storing a value and loading it again from the same place gives the value
/// back, as far as it fits the width of the access.
pub proof fn lemma_load_after_store(memory: MemoryView, address: u64, width: nat, value: nat)
    requires
        memory.in_bounds(address, width),
        value < range(width),
    ensures
        memory.store(address, width, value).unwrap().load(address, width) == Some(value),
{
    let stored = memory.store(address, width, value).unwrap();
    lemma_le_bytes_len(value, width);
    assert(stored.slice(address, width) =~= le_bytes(value, width));
    lemma_load_of_store(value, width);
}

/// Loading a value and storing it back at the same place leaves the memory
/// as it was.
pub proof fn lemma_store_after_load(memory: MemoryView, address: u64, width: nat)
    requires
        memory.in_bounds(address, width),
    ensures
        memory.store(address, width, memory.load(address, width).unwrap()) == Some(memory),
{
    let slice = memory.slice(address, width);
    lemma_store_of_load(slice);
    let stored = memory.store(address, width, le_value(slice)).unwrap();
    assert(stored.bytes =~= memory.bytes);
}

/// A linear memory: a number of pages of bytes that can grow up to a maximum.
#[derive(Debug)]
pub struct MemoryEntity {
    bytes: Vec<u8>,
    maximum: u32,
}

impl View for MemoryEntity {
    type V = MemoryView;

    closed spec fn view(&self) -> MemoryView {
        MemoryView { bytes: self.bytes@, maximum: self.maximum }
    }
}

impl MemoryEntity {
    /// The memory consists of whole pages, no more than a memory can have.
    pub open spec fn wf(&self) -> bool {
        &&& self@.bytes.len() % (PAGE_SIZE as nat) == 0
        &&& self@.pages() <= MAX_PAGES
        &&& self@.bytes.len() <= usize::MAX
    }

    /// Creates a memory of `initial` zeroed pages that can grow up to
    /// `maximum` pages, or up to what a memory can have if `maximum` is
    /// `None`. Returns `None` if the initial size is beyond the maximum or
    /// beyond what this machine can address.
    pub fn new(initial: u32, maximum: Option<u32>) -> (memory: Option<MemoryEntity>)
        ensures
            match MemoryView::empty(maximum).grow(initial) {
                Some(view) => memory matches Some(m) && m@ == view && m.wf(),
                None => memory is None,
            },
    {
        let maximum = match maximum {
            Some(pages) => pages,
            None => MAX_PAGES,
        };
        let mut memory = MemoryEntity { bytes: Vec::new(), maximum };
        assert(memory@.bytes =~= Seq::empty());
        match memory.grow(initial) {
            Some(_) => Some(memory),
            None => None,
        }
    }

    /// Returns the number of pages of the memory.
    pub fn current_pages(&self) -> (pages: u32)
        requires
            self.wf(),
        ensures
            pages == self@.pages(),
    {
        (self.bytes.len() / PAGE_SIZE) as u32
    }

    /// Returns the number of bytes of the memory.
    pub fn len(&self) -> (len: usize)
        ensures
            len == self@.bytes.len(),
    {
        self.bytes.len()
    }

    /// Grows the memory by `delta` zeroed pages and returns the number of
    /// pages it had before. Returns `None`, and changes nothing, if the
    /// memory cannot grow that far.
    pub fn grow(&mut self, delta: u32) -> (previous: Option<u32>)
        requires
            old(self).wf(),
        ensures
            final(self).wf(),
            match old(self)@.grow(delta) {
                Some(memory) => previous == Some(old(self)@.pages() as u32) && final(self)@
                    == memory,
                None => previous is None && final(self)@ == old(self)@,
            },
    {
        let current = self.current_pages();
        let pages = current as u64 + delta as u64;
        if pages > self.maximum as u64 || pages > MAX_PAGES as u64 {
            return None;
        }
        let len = pages * PAGE_SIZE as u64;
        if len > usize::MAX as u64 {
            return None;
        }
        self.bytes.resize(len as usize, 0u8);
        proof {
            assert(self@.bytes.len() == pages * PAGE_SIZE);
            assert(old(self)@.bytes.len() == current * PAGE_SIZE);
            assert(self@.bytes =~= old(self)@.grow(delta).unwrap().bytes);
        }
        Some(current)
    }

    /// Loads the number that the `width` bytes at `address` spell, or `None`
    /// if the access is out of bounds. The width is 1, 2, 4 or 8.
    pub fn load(&self, address: u64, width: usize) -> (value: Option<u64>)
        requires
            width == 1 || width == 2 || width == 4 || width == 8,
        ensures
            match self@.load(address, width as nat) {
                Some(number) => value == Some(number as u64) && number <= u64::MAX,
                None => value is None,
            },
    {
        let len = self.bytes.len();
        if address > len as u64 || (len as u64) - address < width as u64 {
            return None;
        }
        let at = address as usize;
        let ghost slice = self@.slice(address, width as nat);
        proof {
            reveal_with_fuel(le_value, 9);
            assert forall|i: int| 0 <= i < width implies slice[i] == self.bytes@[at + i] by {}
            assert(slice.len() == width);
            let s1 = slice.skip(1);
            let s2 = s1.skip(1);
            let s3 = s2.skip(1);
            let s4 = s3.skip(1);
            let s5 = s4.skip(1);
            let s6 = s5.skip(1);
            let s7 = s6.skip(1);
            if width >= 2 {
                assert(s1.first() == slice[1]);
            }
            if width >= 4 {
                assert(s2.first() == slice[2]);
                assert(s3.first() == slice[3]);
            }
            if width >= 8 {
                assert(s4.first() == slice[4]);
                assert(s5.first() == slice[5]);
                assert(s6.first() == slice[6]);
                assert(s7.first() == slice[7]);
            }
        }
        let b0 = self.bytes[at] as u64;
        if width == 1 {
            return Some(b0);
        }
        let b1 = self.bytes[at + 1] as u64;
        if width == 2 {
            return Some(b0 + 0x100 * b1);
        }
        let b2 = self.bytes[at + 2] as u64;
        let b3 = self.bytes[at + 3] as u64;
        if width == 4 {
            return Some(b0 + 0x100 * b1 + 0x1_0000 * b2 + 0x100_0000 * b3);
        }
        let b4 = self.bytes[at + 4] as u64;
        let b5 = self.bytes[at + 5] as u64;
        let b6 = self.bytes[at + 6] as u64;
        let b7 = self.bytes[at + 7] as u64;
        Some(
            b0 + 0x100 * b1 + 0x1_0000 * b2 + 0x100_0000 * b3 + 0x1_0000_0000 * b4
                + 0x100_0000_0000 * b5 + 0x1_0000_0000_0000 * b6 + 0x100_0000_0000_0000 * b7,
        )
    }

    /// Stores the low `width` bytes of `value` at `address` and returns
    /// `true`, or returns `false` and changes nothing if the access is out of
    /// bounds. The width is 1, 2, 4 or 8.
    pub fn store(&mut self, address: u64, width: usize, value: u64) -> (stored: bool)
        requires
            old(self).wf(),
            width == 1 || width == 2 || width == 4 || width == 8,
        ensures
            final(self).wf(),
            final(self)@.bytes.len() == old(self)@.bytes.len(),
            match old(self)@.store(address, width as nat, value as nat) {
                Some(memory) => stored && final(self)@ == memory,
                None => !stored && final(self)@ == old(self)@,
            },
    {
        let len = self.bytes.len();
        if address > len as u64 || (len as u64) - address < width as u64 {
            return false;
        }
        let at = address as usize;
        let mut rest = value;
        let mut i: usize = 0;
        while i < width
            invariant
                i <= width <= 8,
                at + width <= len == self.bytes@.len() == old(self).bytes@.len(),
                self.maximum == old(self).maximum,
                self.bytes@ == old(self).bytes@.subrange(0, at as int) + le_bytes(
                    value as nat,
                    i as nat,
                ) + old(self).bytes@.subrange(at + i, len as int),
                le_bytes(value as nat, width as nat) == le_bytes(value as nat, i as nat)
                    + le_bytes(rest as nat, (width - i) as nat),
            decreases width - i,
        {
            proof {
                lemma_le_bytes_len(value as nat, i as nat);
                lemma_le_bytes_step(value as nat, rest as nat, i as nat, (width - i) as nat);
            }
            let ghost before = self.bytes@;
            self.bytes[at + i] = (rest % 0x100) as u8;
            rest = rest / 0x100;
            i += 1;
            proof {
                lemma_le_bytes_len(value as nat, i as nat);
                assert(self.bytes@ =~= old(self).bytes@.subrange(0, at as int) + le_bytes(
                    value as nat,
                    i as nat,
                ) + old(self).bytes@.subrange(at + i, len as int));
            }
        }
        proof {
            assert(le_bytes(rest as nat, 0) =~= Seq::empty());
            assert(le_bytes(value as nat, width as nat) =~= le_bytes(value as nat, i as nat));
        }
        true
    }

    /// Copies the bytes from `offset` on into `buffer`, as many as the buffer
    /// holds, and returns `true`. Returns `false` and leaves the buffer alone
    /// if the memory does not reach that far.
    pub fn read(&self, offset: usize, buffer: &mut Vec<u8>) -> (done: bool)
        ensures
            final(buffer)@.len() == old(buffer)@.len(),
            done <==> offset + old(buffer)@.len() <= self@.bytes.len(),
            done ==> final(buffer)@ == self@.bytes.subrange(
                offset as int,
                offset + old(buffer)@.len(),
            ),
            !done ==> final(buffer)@ == old(buffer)@,
    {
        let len = self.bytes.len();
        let count = buffer.len();
        if offset > len || len - offset < count {
            return false;
        }
        let mut i: usize = 0;
        while i < count
            invariant
                i <= count == buffer@.len(),
                offset + count <= len == self.bytes@.len(),
                forall|j: int| 0 <= j < i ==> buffer@[j] == self.bytes@[offset + j],
            decreases count - i,
        {
            buffer[i] = self.bytes[offset + i];
            i += 1;
        }
        assert(buffer@ =~= self@.bytes.subrange(offset as int, offset + count));
        true
    }

    /// Copies `data` into the memory from `offset` on and returns `true`.
    /// Returns `false` and changes nothing if the memory does not reach that
    /// far.
    pub fn write(&mut self, offset: usize, data: &Vec<u8>) -> (done: bool)
        requires
            old(self).wf(),
        ensures
            final(self).wf(),
            final(self)@.maximum == old(self)@.maximum,
            done <==> offset + data@.len() <= old(self)@.bytes.len(),
            done ==> final(self)@.bytes == old(self)@.bytes.subrange(0, offset as int) + data@
                + old(self)@.bytes.subrange(
                offset + data@.len(),
                old(self)@.bytes.len() as int,
            ),
            !done ==> final(self)@ == old(self)@,
    {
        let len = self.bytes.len();
        let count = data.len();
        if offset > len || len - offset < count {
            return false;
        }
        let mut i: usize = 0;
        while i < count
            invariant
                i <= count == data@.len(),
                offset + count <= len == self.bytes@.len() == old(self).bytes@.len(),
                self.maximum == old(self).maximum,
                forall|j: int| 0 <= j < i ==> self.bytes@[offset + j] == data@[j],
                forall|j: int|
                    0 <= j < len && !(offset <= j < offset + i) ==> self.bytes@[j] == old(
                        self,
                    ).bytes@[j],
            decreases count - i,
        {
            self.bytes[offset + i] = data[i];
            i += 1;
        }
        assert(self@.bytes =~= old(self)@.bytes.subrange(0, offset as int) + data@ + old(
            self,
        )@.bytes.subrange(offset + count, len as int));
        true
    }
}

/// Encoding goes digit by digit: the first `done` bytes of a value followed by
/// the next byte are its first `done + 1` bytes.
proof fn lemma_le_bytes_step(value: nat, rest: nat, done: nat, left: nat)
    requires
        left > 0,
        le_bytes(value, done + left) == le_bytes(value, done) + le_bytes(rest, left),
    ensures
        le_bytes(value, done + 1) == le_bytes(value, done).push((rest % 256) as u8),
        le_bytes(value, done + left) == le_bytes(value, done + 1) + le_bytes(
            rest / 256,
            (left - 1) as nat,
        ),
{
    lemma_le_bytes_prefix(value, done + 1, done + left);
    lemma_le_bytes_len(value, done);
    lemma_le_bytes_len(value, done + 1);
    let whole = le_bytes(value, done + left);
    let tail = le_bytes(rest, left);
    assert(tail.first() == (rest % 256) as u8);
    assert(whole[done as int] == tail[0]);
    assert(le_bytes(value, done + 1) =~= whole.subrange(0, done as int + 1));
    lemma_le_bytes_prefix(value, done, done + left);
    assert(le_bytes(value, done) =~= whole.subrange(0, done as int));
    assert(le_bytes(value, done + 1) =~= le_bytes(value, done).push((rest % 256) as u8));
    assert(tail.skip(1) =~= le_bytes(rest / 256, (left - 1) as nat));
    assert(whole =~= le_bytes(value, done + 1) + le_bytes(rest / 256, (left - 1) as nat));
}

/// A narrower encoding is the beginning of a wider one.
proof fn lemma_le_bytes_prefix(value: nat, narrow: nat, wide: nat)
    requires
        narrow <= wide,
    ensures
        le_bytes(value, narrow) == le_bytes(value, wide).subrange(0, narrow as int),
    decreases narrow,
{
    lemma_le_bytes_len(value, wide);
    if narrow == 0 {
        assert(le_bytes(value, 0) =~= le_bytes(value, wide).subrange(0, 0));
    } else {
        lemma_le_bytes_prefix(value / 256, (narrow - 1) as nat, (wide - 1) as nat);
        lemma_le_bytes_len(value / 256, (wide - 1) as nat);
        assert(le_bytes(value, narrow) =~= le_bytes(value, wide).subrange(0, narrow as int));
    }
}

} // verus!
