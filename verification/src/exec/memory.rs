//! The linear memory.

use vstd::prelude::*;
use crate::exec::error::{AddressRange, ExecutionError};
use crate::parse::module::{
    DataSegment,
    DataSegmentView,
    MemoryBlueprint,
    MemoryBlueprintView,
    PageLimit,
};

verus! {

/// The number of bytes in a page.  This runtime keeps its pages small; a
/// module that counts on the 65536 bytes of a page of WebAssembly proper gets
/// less memory here than it asks for.
pub const MEMORY_PAGE_SIZE: usize = 4096;

/// The linear memory of an instance: its bytes, the limit on the number of
/// its pages and the name it is exported under.
#[derive(Debug, Default, PartialEq, Eq)]
pub struct Memory {
    pub data: Vec<u8>,
    pub page_limit: PageLimit,
    pub name: Option<String>,
}

/// `bytes` with the part from `at` on replaced by `part`.
pub open spec fn splice(bytes: Seq<u8>, at: int, part: Seq<u8>) -> Seq<u8> {
    Seq::new(
        bytes.len(),
        |i: int|
            if at <= i < at + part.len() {
                part[i - at]
            } else {
                bytes[i]
            },
    )
}

/// `bytes` followed by zeros up to the length `len`; `bytes` itself where it
/// is that long already.
pub open spec fn extended(bytes: Seq<u8>, len: nat) -> Seq<u8> {
    Seq::new(
        if len > bytes.len() {
            len
        } else {
            bytes.len()
        },
        |i: int|
            if i < bytes.len() {
                bytes[i]
            } else {
                0u8
            },
    )
}

/// Something that can be read from and written to an address of a memory,
/// least significant byte first.
pub trait MemObject: Sized {
    /// The number of bytes that a value takes.
    spec fn width() -> nat;

    /// The value that `bytes` hold.
    spec fn from_bytes(bytes: Seq<u8>) -> Self;

    /// The bytes that hold `self`.
    spec fn to_bytes(&self) -> Seq<u8>;

    /// Tells the number of bytes that a value takes.
    fn byte_width() -> (w: usize)
        ensures
            w == Self::width(),
    ;

    /// A value takes `width` bytes.
    proof fn lemma_width(&self)
        ensures
            self.to_bytes().len() == Self::width(),
    ;

    /// Reads a value from the bytes of `mem` at `addr`.
    fn read_from_mem(mem: &Memory, addr: usize) -> (r: Self)
        requires
            addr + Self::width() <= mem.data@.len(),
        ensures
            r == Self::from_bytes(mem.data@.subrange(addr as int, addr + Self::width())),
    ;

    /// Writes `self` to the bytes of `mem` at `addr`.
    fn write_to_mem(&self, mem: &mut Memory, addr: usize)
        requires
            addr + Self::width() <= old(mem).data@.len(),
        ensures
            final(mem).data@ == splice(old(mem).data@, addr as int, self.to_bytes()),
            final(mem).page_limit == old(mem).page_limit,
            final(mem).name == old(mem).name,
    ;
}

impl MemObject for u8 {
    open spec fn width() -> nat {
        1
    }

    fn byte_width() -> (w: usize) {
        1
    }

    open spec fn from_bytes(bytes: Seq<u8>) -> u8 {
        bytes[0]
    }

    open spec fn to_bytes(&self) -> Seq<u8> {
        seq![*self]
    }

    proof fn lemma_width(&self) {
    }

    fn read_from_mem(mem: &Memory, addr: usize) -> (r: u8) {
        mem.data[addr]
    }

    fn write_to_mem(&self, mem: &mut Memory, addr: usize) {
        mem.data[addr] = *self;
        assert(mem.data@ =~= splice(old(mem).data@, addr as int, self.to_bytes()));
    }
}

impl MemObject for u16 {
    open spec fn width() -> nat {
        2
    }

    fn byte_width() -> (w: usize) {
        2
    }

    open spec fn from_bytes(bytes: Seq<u8>) -> u16 {
        (bytes[0] + 256 * bytes[1]) as u16
    }

    open spec fn to_bytes(&self) -> Seq<u8> {
        seq![(*self % 256) as u8, (*self / 256) as u8]
    }

    proof fn lemma_width(&self) {
    }

    fn read_from_mem(mem: &Memory, addr: usize) -> (r: u16) {
        assert(mem.data@.len() == mem.data.len());
        let b0 = mem.data[addr] as u16;
        let b1 = mem.data[addr + 1] as u16;
        b0 + 256 * b1
    }

    fn write_to_mem(&self, mem: &mut Memory, addr: usize) {
        let v = *self;
        assert(mem.data@.len() == mem.data.len());
        mem.data[addr] = (v % 256) as u8;
        mem.data[addr + 1] = (v / 256) as u8;
        assert(mem.data@ =~= splice(old(mem).data@, addr as int, self.to_bytes()));
    }
}

impl MemObject for u32 {
    open spec fn width() -> nat {
        4
    }

    fn byte_width() -> (w: usize) {
        4
    }

    open spec fn from_bytes(bytes: Seq<u8>) -> u32 {
        (bytes[0] + 256 * (bytes[1] + 256 * (bytes[2] + 256 * bytes[3]))) as u32
    }

    open spec fn to_bytes(&self) -> Seq<u8> {
        seq![
            (*self % 256) as u8,
            (*self / 0x100 % 256) as u8,
            (*self / 0x1_0000 % 256) as u8,
            (*self / 0x100_0000) as u8,
        ]
    }

    proof fn lemma_width(&self) {
    }

    fn read_from_mem(mem: &Memory, addr: usize) -> (r: u32) {
        assert(mem.data@.len() == mem.data.len());
        let b0 = mem.data[addr] as u32;
        let b1 = mem.data[addr + 1] as u32;
        let b2 = mem.data[addr + 2] as u32;
        let b3 = mem.data[addr + 3] as u32;
        b0 + 256 * (b1 + 256 * (b2 + 256 * b3))
    }

    fn write_to_mem(&self, mem: &mut Memory, addr: usize) {
        let v = *self;
        assert(mem.data@.len() == mem.data.len());
        mem.data[addr] = (v % 256) as u8;
        mem.data[addr + 1] = (v / 0x100 % 256) as u8;
        mem.data[addr + 2] = (v / 0x1_0000 % 256) as u8;
        mem.data[addr + 3] = (v / 0x100_0000) as u8;
        assert(mem.data@ =~= splice(old(mem).data@, addr as int, self.to_bytes()));
    }
}

impl MemObject for u64 {
    open spec fn width() -> nat {
        8
    }

    fn byte_width() -> (w: usize) {
        8
    }

    open spec fn from_bytes(bytes: Seq<u8>) -> u64 {
        (bytes[0] + 256 * (bytes[1] + 256 * (bytes[2] + 256 * (bytes[3] + 256 * (bytes[4] + 256 * (
        bytes[5] + 256 * (bytes[6] + 256 * bytes[7]))))))) as u64
    }

    open spec fn to_bytes(&self) -> Seq<u8> {
        seq![
            (*self % 256) as u8,
            (*self / 0x100 % 256) as u8,
            (*self / 0x1_0000 % 256) as u8,
            (*self / 0x100_0000 % 256) as u8,
            (*self / 0x1_0000_0000 % 256) as u8,
            (*self / 0x100_0000_0000 % 256) as u8,
            (*self / 0x1_0000_0000_0000 % 256) as u8,
            (*self / 0x100_0000_0000_0000) as u8,
        ]
    }

    proof fn lemma_width(&self) {
    }

    fn read_from_mem(mem: &Memory, addr: usize) -> (r: u64) {
        assert(mem.data@.len() == mem.data.len());
        let b0 = mem.data[addr] as u64;
        let b1 = mem.data[addr + 1] as u64;
        let b2 = mem.data[addr + 2] as u64;
        let b3 = mem.data[addr + 3] as u64;
        let b4 = mem.data[addr + 4] as u64;
        let b5 = mem.data[addr + 5] as u64;
        let b6 = mem.data[addr + 6] as u64;
        let b7 = mem.data[addr + 7] as u64;
        b0 + 256 * (b1 + 256 * (b2 + 256 * (b3 + 256 * (b4 + 256 * (b5 + 256 * (b6 + 256 * b7))))))
    }

    fn write_to_mem(&self, mem: &mut Memory, addr: usize) {
        let v = *self;
        assert(mem.data@.len() == mem.data.len());
        mem.data[addr] = (v % 256) as u8;
        mem.data[addr + 1] = (v / 0x100 % 256) as u8;
        mem.data[addr + 2] = (v / 0x1_0000 % 256) as u8;
        mem.data[addr + 3] = (v / 0x100_0000 % 256) as u8;
        mem.data[addr + 4] = (v / 0x1_0000_0000 % 256) as u8;
        mem.data[addr + 5] = (v / 0x100_0000_0000 % 256) as u8;
        mem.data[addr + 6] = (v / 0x1_0000_0000_0000 % 256) as u8;
        mem.data[addr + 7] = (v / 0x100_0000_0000_0000) as u8;
        assert(mem.data@ =~= splice(old(mem).data@, addr as int, self.to_bytes()));
    }
}

impl Memory {
    /// The invariant of a memory: its size is a whole number of pages, and
    /// that number lies within the page limit.
    pub open spec fn wf(&self) -> bool {
        &&& self.data@.len() % (MEMORY_PAGE_SIZE as nat) == 0
        &&& self.page_limit.start * MEMORY_PAGE_SIZE <= self.data@.len()
        &&& self.data@.len() <= self.page_limit.end * MEMORY_PAGE_SIZE
    }

    /// The number of pages of the memory.
    pub open spec fn pages(&self) -> nat {
        self.data@.len() / (MEMORY_PAGE_SIZE as nat)
    }

    /// Grows the memory to `new_page_size` pages: see `grown_to`.  The memory
    /// never gets shorter, and a page count beyond the limit is refused with
    /// the memory left as it is.
    pub fn grow(&mut self, new_page_size: usize) -> (r: Result<(), ExecutionError>)
        ensures
            final(self).page_limit == old(self).page_limit,
            final(self).name == old(self).name,
            old(self).wf() ==> final(self).wf(),
            match grown_to(old(self)@, new_page_size) {
                Ok(data) => r == Ok::<(), ExecutionError>(()) && final(self).data@ == data,
                Err(e) => r == Err::<(), ExecutionError>(e) && final(self).data@ == old(
                    self,
                ).data@,
            },
    {
        if new_page_size as u64 > self.page_limit.end || new_page_size > usize::MAX
            / MEMORY_PAGE_SIZE {
            return Err(
                ExecutionError::MemoryLimitExceeded {
                    pages: new_page_size as u64,
                    limit: self.page_limit.end,
                },
            );
        }
        assert(new_page_size * MEMORY_PAGE_SIZE <= usize::MAX && (new_page_size
            * MEMORY_PAGE_SIZE) % 4096 == 0 && new_page_size * MEMORY_PAGE_SIZE
            <= self.page_limit.end * MEMORY_PAGE_SIZE) by (nonlinear_arith)
            requires
                new_page_size <= usize::MAX / MEMORY_PAGE_SIZE,
                new_page_size <= self.page_limit.end,
                MEMORY_PAGE_SIZE == 4096,
        ;
        let new_byte_size = MEMORY_PAGE_SIZE * new_page_size;
        if new_byte_size > self.data.len() {
            self.data.resize(new_byte_size, 0u8);
        }
        assert(self.data@ =~= extended(old(self).data@, new_byte_size as nat));
        Ok(())
    }

    /// The number of pages of the memory.
    pub fn page_size(&self) -> (r: usize)
        ensures
            r == self.pages(),
    {
        self.data.len() / MEMORY_PAGE_SIZE
    }

    /// The bytes of the memory.
    pub fn data(&self) -> (r: &[u8])
        ensures
            r@ == self.data@,
    {
        self.data.as_slice()
    }

    /// Reads a value at `addr`.
    pub fn read<T: MemObject>(&self, addr: usize) -> (r: T)
        requires
            addr + T::width() <= self.data@.len(),
        ensures
            r == T::from_bytes(self.data@.subrange(addr as int, addr + T::width())),
    {
        T::read_from_mem(self, addr)
    }

    /// Writes a value at `addr`.
    pub fn write<T: MemObject>(&mut self, mem_object: &T, addr: usize)
        requires
            addr + T::width() <= old(self).data@.len(),
        ensures
            final(self).data@ == splice(old(self).data@, addr as int, mem_object.to_bytes()),
            final(self).page_limit == old(self).page_limit,
            final(self).name == old(self).name,
            old(self).wf() ==> final(self).wf(),
    {
        mem_object.write_to_mem(self, addr)
    }
}

/// The model of a `Memory`.
pub struct MemoryView {
    pub data: Seq<u8>,
    pub page_limit: PageLimit,
    pub name: Option<Seq<char>>,
}

impl View for Memory {
    type V = MemoryView;

    open spec fn view(&self) -> MemoryView {
        MemoryView { data: self.data@, page_limit: self.page_limit, name: self.name.deep_view() }
    }
}

impl MemoryView {
    /// The invariant of a memory, on its model.
    pub open spec fn wf(self) -> bool {
        &&& self.data.len() % (MEMORY_PAGE_SIZE as nat) == 0
        &&& self.page_limit.start * MEMORY_PAGE_SIZE <= self.data.len()
        &&& self.data.len() <= self.page_limit.end * MEMORY_PAGE_SIZE
    }

    /// The number of pages.
    pub open spec fn pages(self) -> nat {
        self.data.len() / (MEMORY_PAGE_SIZE as nat)
    }

    /// This memory with other bytes.
    pub open spec fn with_data(self, data: Seq<u8>) -> MemoryView {
        MemoryView { data, ..self }
    }
}

/// `n`, or the greatest index where `n` is beyond it.
pub open spec fn clamp(n: int) -> usize {
    if n > usize::MAX {
        usize::MAX
    } else {
        n as usize
    }
}

/// The error for an access to `width` bytes at `address` of a memory of
/// `size` bytes.
pub open spec fn area_error(address: int, width: int, size: nat) -> ExecutionError {
    ExecutionError::InvalidMemoryArea {
        addr: AddressRange { start: clamp(address), end: clamp(address + width) },
        size: size as usize,
    }
}

/// The address of an access to `width` bytes at `address` of a memory of
/// `size` bytes, or the error for an access that leaves the memory.
pub open spec fn checked_area(
    address: int,
    width: int,
    size: nat,
) -> Result<usize, ExecutionError> {
    if address + width <= size {
        Ok(address as usize)
    } else {
        Err(area_error(address, width, size))
    }
}

impl Memory {
    /// Checks that the `width` bytes at `base + offset` lie within the
    /// memory.  Returns the address.
    pub fn check_area(&self, base: usize, offset: usize, width: usize) -> (r: Result<
        usize,
        ExecutionError,
    >)
        ensures
            r == checked_area(base + offset, width as int, self.data@.len()),
    {
        let size = self.data.len();
        match base.checked_add(offset) {
            Some(address) => match address.checked_add(width) {
                Some(end) => if end <= size {
                    Ok(address)
                } else {
                    Err(
                        ExecutionError::InvalidMemoryArea {
                            addr: AddressRange { start: address, end },
                            size,
                        },
                    )
                },
                None => Err(
                    ExecutionError::InvalidMemoryArea {
                        addr: AddressRange { start: address, end: usize::MAX },
                        size,
                    },
                ),
            },
            None => Err(
                ExecutionError::InvalidMemoryArea {
                    addr: AddressRange { start: usize::MAX, end: usize::MAX },
                    size,
                },
            ),
        }
    }

    /// Reads a value at `address`, if the value lies within the memory.
    pub fn load<T: MemObject>(&self, address: usize) -> (r: Result<T, ExecutionError>)
        ensures
            match checked_area(address as int, T::width() as int, self.data@.len()) {
                Ok(_) => r == Ok::<T, ExecutionError>(
                    T::from_bytes(self.data@.subrange(address as int, address + T::width())),
                ),
                Err(e) => r == Err::<T, ExecutionError>(e),
            },
    {
        match self.check_area(address, 0, T::byte_width()) {
            Ok(_) => Ok(self.read::<T>(address)),
            Err(e) => Err(e),
        }
    }

    /// Writes a value at `address`, if the value lies within the memory.
    pub fn store<T: MemObject>(&mut self, mem_object: &T, address: usize) -> (r: Result<
        (),
        ExecutionError,
    >)
        ensures
            final(self).page_limit == old(self).page_limit,
            final(self).name == old(self).name,
            old(self).wf() ==> final(self).wf(),
            match checked_area(address as int, T::width() as int, old(self).data@.len()) {
                Ok(_) => r == Ok::<(), ExecutionError>(()) && final(self).data@ == splice(
                    old(self).data@,
                    address as int,
                    mem_object.to_bytes(),
                ),
                Err(e) => r == Err::<(), ExecutionError>(e) && final(self).data@ == old(self).data@,
            },
    {
        match self.check_area(address, 0, T::byte_width()) {
            Ok(_) => {
                self.write::<T>(mem_object, address);
                Ok(())
            },
            Err(e) => Err(e),
        }
    }

    /// Grows the memory by `delta` pages, if the page limit and the machine
    /// allow that many pages.  Returns the number of pages before.
    pub fn try_grow(&mut self, delta: u32) -> (r: Result<usize, ExecutionError>)
        requires
            old(self).wf(),
        ensures
            final(self).wf(),
            final(self).page_limit == old(self).page_limit,
            final(self).name == old(self).name,
            match grown(old(self)@, delta) {
                Ok(data) => r == Ok::<usize, ExecutionError>(old(self).pages() as usize)
                    && final(self).data@ == data,
                Err(e) => r == Err::<usize, ExecutionError>(e) && final(self).data@ == old(
                    self,
                ).data@,
            },
    {
        let size = self.data.len();
        let pages = size / MEMORY_PAGE_SIZE;
        assert(pages <= usize::MAX / 4096);
        let wanted: u64 = pages as u64 + delta as u64;
        if wanted > self.page_limit.end || wanted > (usize::MAX / MEMORY_PAGE_SIZE) as u64 {
            return Err(
                ExecutionError::MemoryLimitExceeded { pages: wanted, limit: self.page_limit.end },
            );
        }
        assert(self.page_limit.start <= pages) by (nonlinear_arith)
            requires
                self.page_limit.start * MEMORY_PAGE_SIZE <= self.data@.len(),
                pages == self.data@.len() / (MEMORY_PAGE_SIZE as nat),
                MEMORY_PAGE_SIZE == 4096,
        ;
        assert(wanted * MEMORY_PAGE_SIZE <= usize::MAX) by (nonlinear_arith)
            requires
                wanted <= usize::MAX / MEMORY_PAGE_SIZE,
                MEMORY_PAGE_SIZE == 4096,
        ;
        match self.grow(wanted as usize) {
            Ok(()) => Ok(pages),
            Err(e) => Err(e),
        }
    }
}

/// The bytes of the memory `memory` after growing to `pages` pages, or the
/// error for a page count beyond the page limit or beyond what the machine
/// can address.  A memory that has that many pages already, or more, stays as
/// it is: growth never drops a byte.
pub open spec fn grown_to(memory: MemoryView, pages: usize) -> Result<Seq<u8>, ExecutionError> {
    if pages > memory.page_limit.end || pages > usize::MAX / MEMORY_PAGE_SIZE {
        Err(
            ExecutionError::MemoryLimitExceeded {
                pages: pages as u64,
                limit: memory.page_limit.end,
            },
        )
    } else {
        Ok(extended(memory.data, (pages * MEMORY_PAGE_SIZE) as nat))
    }
}

/// The bytes of the memory `memory` after growing by `delta` pages, or the
/// error for a growth beyond the page limit or beyond what the machine can
/// address.
pub open spec fn grown(memory: MemoryView, delta: u32) -> Result<Seq<u8>, ExecutionError> {
    let wanted = memory.pages() + delta;
    if wanted > memory.page_limit.end || wanted > usize::MAX / MEMORY_PAGE_SIZE {
        Err(
            ExecutionError::MemoryLimitExceeded {
                pages: wanted as u64,
                limit: memory.page_limit.end,
            },
        )
    } else {
        Ok(extended(memory.data, (wanted * MEMORY_PAGE_SIZE) as nat))
    }
}

/// The bytes of a memory after the data segments from `from` on have been
/// copied into `data`, in order, or the error for the first segment that
/// does not lie within the memory.
pub open spec fn copy_segments(data: Seq<u8>, init: Seq<DataSegmentView>, from: int) -> Result<
    Seq<u8>,
    ExecutionError,
>
    decreases init.len() - from,
{
    if from < 0 || from >= init.len() {
        Ok(data)
    } else {
        match checked_area(init[from].addr as int, init[from].data.len() as int, data.len()) {
            Ok(_) => copy_segments(
                splice(data, init[from].addr as int, init[from].data),
                init,
                from + 1,
            ),
            Err(e) => Err(e),
        }
    }
}

/// The bytes of the memory that a blueprint describes: as many zeroed pages
/// as the page limit asks for at least, with the data segments copied in.
pub open spec fn initial_data(blueprint: MemoryBlueprintView) -> Result<Seq<u8>, ExecutionError> {
    if blueprint.page_limit.start > blueprint.page_limit.end {
        Err(
            ExecutionError::InvalidPageLimit {
                start: blueprint.page_limit.start,
                end: blueprint.page_limit.end,
            },
        )
    } else if blueprint.page_limit.start > usize::MAX / MEMORY_PAGE_SIZE {
        Err(
            ExecutionError::MemoryLimitExceeded {
                pages: blueprint.page_limit.start,
                limit: blueprint.page_limit.end,
            },
        )
    } else {
        copy_segments(
            extended(Seq::empty(), (blueprint.page_limit.start * MEMORY_PAGE_SIZE) as nat),
            blueprint.init,
            0,
        )
    }
}

/// Growth is monotonic: a memory that has grown is no shorter than before
/// and holds the bytes that it held, and it keeps its invariant.  A memory
/// that had no more pages than were asked for has exactly that many.
pub proof fn lemma_growth_is_monotonic(memory: MemoryView, pages: usize, delta: u32)
    ensures
        grown_to(memory, pages) matches Ok(data) ==> data.len() >= memory.data.len()
            && data.subrange(0, memory.data.len() as int) == memory.data && (memory.wf()
            ==> memory.with_data(data).wf()) && (memory.data.len() <= pages * MEMORY_PAGE_SIZE
            ==> data.len() == pages * MEMORY_PAGE_SIZE),
        grown(memory, delta) matches Ok(data) ==> data.len() >= memory.data.len()
            && data.subrange(0, memory.data.len() as int) == memory.data && (memory.wf()
            ==> memory.with_data(data).wf()),
{
    match grown_to(memory, pages) {
        Ok(data) => {
            assert(data.subrange(0, memory.data.len() as int) =~= memory.data);
            assert((pages * MEMORY_PAGE_SIZE) % 4096 == 0 && pages * MEMORY_PAGE_SIZE
                <= memory.page_limit.end * MEMORY_PAGE_SIZE) by (nonlinear_arith)
                requires
                    pages <= memory.page_limit.end,
                    MEMORY_PAGE_SIZE == 4096,
            ;
        },
        Err(_) => {},
    }
    match grown(memory, delta) {
        Ok(data) => {
            let wanted = memory.pages() + delta;
            assert(data.subrange(0, memory.data.len() as int) =~= memory.data);
            assert((wanted * MEMORY_PAGE_SIZE) % 4096 == 0 && wanted * MEMORY_PAGE_SIZE
                <= memory.page_limit.end * MEMORY_PAGE_SIZE) by (nonlinear_arith)
                requires
                    wanted <= memory.page_limit.end,
                    MEMORY_PAGE_SIZE == 4096,
            ;
        },
        Err(_) => {},
    }
}

/// Copying bytes into a memory keeps its size, and succeeds exactly where
/// every segment lies within the memory.
pub proof fn lemma_copy_segments(data: Seq<u8>, init: Seq<DataSegmentView>, from: int)
    requires
        0 <= from,
    ensures
        copy_segments(data, init, from) matches Ok(copied) ==> copied.len() == data.len(),
        copy_segments(data, init, from) is Ok <==> forall|k: int|
            from <= k < init.len() ==> (#[trigger] init[k]).addr + init[k].data.len() <= data.len(),
    decreases init.len() - from,
{
    if from < init.len() {
        lemma_copy_segments(splice(data, init[from].addr as int, init[from].data), init, from + 1);
    }
}

/// The memory that a blueprint describes can be built exactly where the
/// minimum of the page limit is not above its maximum, that many pages can
/// be addressed, and every data segment lies within them.  It then has as
/// many pages as the minimum asks for, which is a whole number of pages
/// within the page limit.
pub proof fn lemma_initial_data(blueprint: MemoryBlueprintView)
    ensures
        initial_data(blueprint) is Ok <==> {
            &&& blueprint.page_limit.start <= blueprint.page_limit.end
            &&& blueprint.page_limit.start * MEMORY_PAGE_SIZE <= usize::MAX
            &&& forall|k: int|
                0 <= k < blueprint.init.len() ==> (#[trigger] blueprint.init[k]).addr
                    + blueprint.init[k].data.len() <= blueprint.page_limit.start
                    * MEMORY_PAGE_SIZE
        },
        initial_data(blueprint) matches Ok(data) ==> data.len() == blueprint.page_limit.start
            * MEMORY_PAGE_SIZE && (MemoryView {
            data,
            page_limit: blueprint.page_limit,
            name: blueprint.export_name,
        }).wf(),
{
    let start = blueprint.page_limit.start;
    let end = blueprint.page_limit.end;
    assert(start > usize::MAX / MEMORY_PAGE_SIZE <==> start * MEMORY_PAGE_SIZE > usize::MAX)
        by (nonlinear_arith)
        requires
            MEMORY_PAGE_SIZE == 4096,
    ;
    let zeroed = extended(Seq::empty(), (start * MEMORY_PAGE_SIZE) as nat);
    lemma_copy_segments(zeroed, blueprint.init, 0);
    if start <= end {
        assert((start * MEMORY_PAGE_SIZE) % 4096 == 0 && start * MEMORY_PAGE_SIZE <= end
            * MEMORY_PAGE_SIZE) by (nonlinear_arith)
            requires
                start <= end,
                MEMORY_PAGE_SIZE == 4096,
        ;
    }
}

impl Memory {
    /// Copies `segment` into the memory.
    pub fn copy_segment(&mut self, segment: &DataSegment) -> (r: Result<(), ExecutionError>)
        ensures
            final(self).page_limit == old(self).page_limit,
            final(self).name == old(self).name,
            match checked_area(segment.addr as int, segment.data@.len() as int, old(self).data@.len()) {
                Ok(_) => r == Ok::<(), ExecutionError>(()) && final(self).data@ == splice(
                    old(self).data@,
                    segment.addr as int,
                    segment.data@,
                ),
                Err(e) => r == Err::<(), ExecutionError>(e) && final(self).data@ == old(self).data@,
            },
    {
        let start = self.check_area(segment.addr, 0, segment.data.len())?;
        let size = self.data.len();
        let mut j: usize = 0;
        while j < segment.data.len()
            invariant
                j <= segment.data@.len(),
                size == self.data@.len(),
                start + segment.data@.len() <= self.data@.len() <= usize::MAX,
                self.data@.len() == old(self).data@.len(),
                self.page_limit == old(self).page_limit,
                self.name == old(self).name,
                self.data@ == splice(old(self).data@, start as int, segment.data@.subrange(0, j as int)),
            decreases segment.data@.len() - j,
        {
            self.data[start + j] = segment.data[j];
            j = j + 1;
            assert(self.data@ =~= splice(
                old(self).data@,
                start as int,
                segment.data@.subrange(0, j as int),
            ));
        }
        assert(segment.data@.subrange(0, j as int) =~= segment.data@);
        Ok(())
    }

    /// Builds the memory that `blueprint` describes.
    #[verifier::loop_isolation(false)]
    pub fn from_blueprint(blueprint: MemoryBlueprint) -> (r: Result<Memory, ExecutionError>)
        ensures
            match initial_data(blueprint.deep_view()) {
                Ok(data) => r is Ok && r->Ok_0.wf() && r->Ok_0@ == (MemoryView {
                    data,
                    page_limit: blueprint.page_limit,
                    name: blueprint.export_name.deep_view(),
                }),
                Err(e) => r == Err::<Memory, ExecutionError>(e),
            },
            r matches Ok(memory) ==> memory.data@.len() == blueprint.page_limit.start
                * MEMORY_PAGE_SIZE,
    {
        let limit = blueprint.page_limit;
        if limit.start > limit.end {
            return Err(ExecutionError::InvalidPageLimit { start: limit.start, end: limit.end });
        }
        if limit.start > (usize::MAX / MEMORY_PAGE_SIZE) as u64 {
            return Err(ExecutionError::MemoryLimitExceeded { pages: limit.start, limit: limit.end });
        }
        let mut memory = Memory { data: Vec::new(), page_limit: limit, name: blueprint.export_name };
        assert(limit.start * MEMORY_PAGE_SIZE <= usize::MAX) by (nonlinear_arith)
            requires
                limit.start <= usize::MAX / MEMORY_PAGE_SIZE,
                MEMORY_PAGE_SIZE == 4096,
        ;
        memory.grow(limit.start as usize)?;
        let ghost zeroed = memory.data@;
        assert(zeroed.len() == limit.start * MEMORY_PAGE_SIZE);
        assert(zeroed.len() % 4096 == 0 && zeroed.len() <= limit.end * MEMORY_PAGE_SIZE)
            by (nonlinear_arith)
            requires
                zeroed.len() == limit.start * MEMORY_PAGE_SIZE,
                limit.start <= limit.end,
                MEMORY_PAGE_SIZE == 4096,
        ;
        let ghost init = blueprint.init.deep_view();
        let mut i: usize = 0;
        while i < blueprint.init.len()
            invariant
                i <= blueprint.init.len(),
                memory.page_limit == limit,
                memory.name.deep_view() == blueprint.export_name.deep_view(),
                memory.data@.len() == zeroed.len(),
                copy_segments(zeroed, init, 0) == copy_segments(memory.data@, init, i as int),
            decreases blueprint.init.len() - i,
        {
            assert(init[i as int] == blueprint.init[i as int].deep_view());
            memory.copy_segment(&blueprint.init[i])?;
            i = i + 1;
        }
        Ok(memory)
    }
}

impl Memory {
    /// Tells whether the invariant of the memory holds.
    pub fn is_well_formed(&self) -> (r: bool)
        ensures
            r == self.wf(),
    {
        let size = self.data.len();
        let pages = (size / MEMORY_PAGE_SIZE) as u64;
        assert(size % MEMORY_PAGE_SIZE == 0 ==> (self.page_limit.start * MEMORY_PAGE_SIZE <= size
            <==> self.page_limit.start <= pages) && (size <= self.page_limit.end
            * MEMORY_PAGE_SIZE <==> pages <= self.page_limit.end)) by (nonlinear_arith)
            requires
                pages == size / MEMORY_PAGE_SIZE,
                MEMORY_PAGE_SIZE == 4096,
        ;
        size % MEMORY_PAGE_SIZE == 0 && self.page_limit.start <= pages && pages
            <= self.page_limit.end
    }
}

} // verus!
