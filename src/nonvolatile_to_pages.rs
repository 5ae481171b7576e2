//! Maps byte-range reads and writes onto a page-oriented storage driver.
//!
//! The bridge keeps one scratch page. Each request hands the page to the
//! driver inside a `PageRequest`; the driver hands it back through
//! `read_complete` or `write_complete`, and the bridge answers with the next
//! request or with the finished transfer. At most one page operation is
//! outstanding, and the scratch page is either held by the bridge or travels
//! with that one request.
//!
//! A write is a read-modify-write of each page it touches: the page is read,
//! the new bytes are copied into it, and it is written back.
use vstd::prelude::*;
use crate::return_code::ReturnCode;
use vstd::arithmetic::div_mod::lemma_fundamental_div_mod;

verus! {

/// The operation in flight.
#[derive(Clone, Copy, Debug, PartialEq, Eq, Structural)]
pub enum State {
    Idle,
    /// Reading pages into the caller's buffer.
    Read,
    /// Writing: waiting for the current page to be read.
    WriteFetch,
    /// Writing: waiting for the modified page to be written back.
    WriteStore,
}

#[derive(Clone, Copy, Debug, PartialEq, Eq, Structural)]
pub enum PageOp {
    ReadPage,
    WritePage,
}

/// An operation for the page driver. `page` is the scratch page, lent for
/// the duration of the operation; for a write it holds the bytes to store.
#[derive(Debug)]
pub struct PageRequest {
    pub op: PageOp,
    pub page_number: usize,
    pub page: Vec<u8>,
}

/// What the bridge asks for after a page operation completed.
#[derive(Debug)]
pub enum Completion {
    /// Issue this page operation next.
    Next(PageRequest),
    /// The read finished: the caller's buffer and the number of bytes read.
    ReadDone(Vec<u8>, usize),
    /// The write finished: the caller's buffer and the number of bytes written.
    WriteDone(Vec<u8>, usize),
    /// No operation awaited this completion; the page is handed back.
    Ignored(Vec<u8>),
}

pub struct NonvolatileToPages {
    page_size: usize,
    pagebuffer: Option<Vec<u8>>,
    state: State,
    buffer: Option<Vec<u8>>,
    address: usize,
    length: usize,
    remaining_length: usize,
    buffer_index: usize,
}

/// `dst` with the bytes from position `at` on replaced by `src`.
pub open spec fn splice(dst: Seq<u8>, at: int, src: Seq<u8>) -> Seq<u8> {
    dst.take(at) + src + dst.skip(at + src.len())
}

/// How many bytes the page that holds `address` contributes to a transfer
/// with `remaining` bytes left: up to the end of the page, at most `remaining`.
pub open spec fn chunk_len(address: nat, remaining: nat, page_size: nat) -> nat
    recommends
        page_size > 0,
{
    let room = (page_size - address % page_size) as nat;
    if room < remaining {
        room
    } else {
        remaining
    }
}

impl NonvolatileToPages {
    pub closed spec fn page_size(&self) -> nat {
        self.page_size as nat
    }

    pub closed spec fn state(&self) -> State {
        self.state
    }

    /// The scratch page when the bridge holds it.
    pub closed spec fn scratch(&self) -> Option<Seq<u8>> {
        match self.pagebuffer {
            Some(p) => Some(p@),
            None => None,
        }
    }

    /// The caller's buffer while an operation is in flight.
    pub closed spec fn buffer(&self) -> Option<Seq<u8>> {
        match self.buffer {
            Some(b) => Some(b@),
            None => None,
        }
    }

    /// Storage address of the next byte to transfer.
    pub closed spec fn address(&self) -> nat {
        self.address as nat
    }

    /// Length of the operation in flight.
    pub closed spec fn length(&self) -> nat {
        self.length as nat
    }

    /// Bytes left to transfer.
    pub closed spec fn remaining(&self) -> nat {
        self.remaining_length as nat
    }

    /// Bytes transferred so far, which is also the position in the caller's
    /// buffer of the next byte.
    pub closed spec fn copied(&self) -> nat {
        self.buffer_index as nat
    }

    pub closed spec fn wf(&self) -> bool {
        &&& self.page_size > 0
        &&& self.pagebuffer matches Some(p) ==> p@.len() == self.page_size
        &&& self.state == State::Idle ==> self.buffer is None
        &&& self.state != State::Idle ==> {
            &&& self.pagebuffer is None
            &&& self.buffer matches Some(b) && self.length <= b@.len()
            &&& self.buffer_index + self.remaining_length == self.length
            &&& self.address + self.remaining_length <= usize::MAX
        }
    }

    /// The chunk that the page at the current address contributes.
    pub open spec fn chunk(&self) -> nat {
        chunk_len(self.address(), self.remaining(), self.page_size())
    }

    /// The page that holds the current address.
    pub open spec fn current_page(&self) -> nat {
        self.address() / self.page_size()
    }

    /// An idle bridge whose scratch page is `page`; the page size is its length.
    pub fn new(page: Vec<u8>) -> (r: Self)
        requires
            page.len() > 0,
        ensures
            r.wf(),
            r.state() == State::Idle,
            r.page_size() == page.len(),
            r.scratch() == Some(page@),
    {
        NonvolatileToPages {
            page_size: page.len(),
            pagebuffer: Some(page),
            state: State::Idle,
            buffer: None,
            address: 0,
            length: 0,
            remaining_length: 0,
            buffer_index: 0,
        }
    }

    /// Why a new operation on a buffer of `buffer_len` bytes is refused, if
    /// it is: `EBUSY` while another is in flight, `ERESERVE` while the scratch
    /// page is lent out, `EINVAL` when `length` exceeds the buffer or the
    /// range passes the end of the address space.
    pub open spec fn admission(&self, buffer_len: nat, address: nat, length: nat) -> Option<
        ReturnCode,
    > {
        if self.state() != State::Idle {
            Some(ReturnCode::EBUSY)
        } else if self.scratch() is None {
            Some(ReturnCode::ERESERVE)
        } else if length > buffer_len || address + length > usize::MAX {
            Some(ReturnCode::EINVAL)
        } else {
            None
        }
    }

    /// The state right after a new operation was admitted.
    pub open spec fn started(&self, buffer: Seq<u8>, address: nat, length: nat, state: State) -> bool {
        &&& self.wf()
        &&& self.state() == state
        &&& self.scratch() is None
        &&& self.buffer() == Some(buffer)
        &&& self.address() == address
        &&& self.length() == length
        &&& self.remaining() == length
        &&& self.copied() == 0
    }

    pub fn current_state(&self) -> (r: State)
        ensures
            r == self.state(),
    {
        self.state
    }

    /// Whether the bridge holds its scratch page.
    pub fn holds_page(&self) -> (r: bool)
        ensures
            r == self.scratch() is Some,
    {
        self.pagebuffer.is_some()
    }

    /// Checks a new operation in and takes the scratch page. Shared by `read`
    /// and `write`, which differ in the first page operation.
    fn start(&mut self, buffer: Vec<u8>, address: usize, length: usize, state: State) -> (r: Result<
        Vec<u8>,
        (ReturnCode, Vec<u8>),
    >)
        requires
            old(self).wf(),
            state != State::Idle,
        ensures
            final(self).page_size() == old(self).page_size(),
            match old(self).admission(buffer@.len(), address as nat, length as nat) {
                Some(code) => refused(r, code, buffer@) && *final(self) == *old(self),
                None => r matches Ok(page) && Some(page@) == old(self).scratch()
                    && final(self).started(buffer@, address as nat, length as nat, state),
            },
    {
        if self.state != State::Idle {
            return Err((ReturnCode::EBUSY, buffer));
        }
        if self.pagebuffer.is_none() {
            return Err((ReturnCode::ERESERVE, buffer));
        }
        if length > buffer.len() || address > usize::MAX - length {
            return Err((ReturnCode::EINVAL, buffer));
        }
        let page = self.pagebuffer.take().unwrap();
        self.state = state;
        self.buffer = Some(buffer);
        self.address = address;
        self.length = length;
        self.remaining_length = length;
        self.buffer_index = 0;
        Ok(page)
    }

    /// Position of the current address within its page.
    pub open spec fn offset(&self) -> nat {
        self.address() % self.page_size()
    }

    /// The caller's buffer after the current chunk was copied out of `page`.
    pub open spec fn read_into(&self, page: Seq<u8>) -> Seq<u8> {
        splice(
            self.buffer().unwrap(),
            self.copied() as int,
            page.subrange(self.offset() as int, (self.offset() + self.chunk()) as int),
        )
    }

    /// `page` after the current chunk of the caller's buffer was copied into it.
    pub open spec fn write_into(&self, page: Seq<u8>) -> Seq<u8> {
        splice(
            page,
            self.offset() as int,
            self.buffer().unwrap().subrange(self.copied() as int, (self.copied() + self.chunk()) as int),
        )
    }

    /// This state follows `pre` after its current chunk was transferred and
    /// more remain: it is in `state` and its caller's buffer holds `buffer`.
    pub open spec fn advanced_from(&self, pre: Self, state: State, buffer: Seq<u8>) -> bool {
        &&& self.wf()
        &&& self.page_size() == pre.page_size()
        &&& self.state() == state
        &&& self.scratch() is None
        &&& self.buffer() == Some(buffer)
        &&& self.address() == pre.address() + pre.chunk()
        &&& self.remaining() == pre.remaining() - pre.chunk()
        &&& self.copied() == pre.copied() + pre.chunk()
        &&& self.length() == pre.length()
    }

    /// This state follows the last chunk of an operation: idle again, with
    /// the scratch page `page` back.
    pub open spec fn finished_with(&self, pre: Self, page: Seq<u8>) -> bool {
        &&& self.wf()
        &&& self.page_size() == pre.page_size()
        &&& self.state() == State::Idle
        &&& self.scratch() == Some(page)
        &&& self.buffer() is None
    }

    /// Starts reading `length` bytes from storage `address` into `buffer`.
    /// Once admitted, the result asks the driver for the page that holds
    /// `address`; refused, the buffer comes back with the status and nothing
    /// changes.
    pub fn read(&mut self, buffer: Vec<u8>, address: usize, length: usize) -> (r: Result<
        PageRequest,
        (ReturnCode, Vec<u8>),
    >)
        requires
            old(self).wf(),
        ensures
            final(self).wf(),
            final(self).page_size() == old(self).page_size(),
            match old(self).admission(buffer@.len(), address as nat, length as nat) {
                Some(code) => refused(r, code, buffer@) && *final(self) == *old(self),
                None => r matches Ok(req) && req.op == PageOp::ReadPage && req.page_number
                    == address as nat / old(self).page_size() && Some(req.page@) == old(self).scratch()
                    && final(self).started(buffer@, address as nat, length as nat, State::Read),
            },
    {
        match self.start(buffer, address, length, State::Read) {
            Ok(page) => Ok(PageRequest { op: PageOp::ReadPage, page_number: address / self.page_size, page }),
            Err(e) => Err(e),
        }
    }

    /// Starts writing the first `length` bytes of `buffer` to storage
    /// `address`. Once admitted, the result asks the driver for the page that
    /// holds `address`, which is then patched and written back; refused, the
    /// buffer comes back with the status and nothing changes.
    pub fn write(&mut self, buffer: Vec<u8>, address: usize, length: usize) -> (r: Result<
        PageRequest,
        (ReturnCode, Vec<u8>),
    >)
        requires
            old(self).wf(),
        ensures
            final(self).wf(),
            final(self).page_size() == old(self).page_size(),
            match old(self).admission(buffer@.len(), address as nat, length as nat) {
                Some(code) => refused(r, code, buffer@) && *final(self) == *old(self),
                None => r matches Ok(req) && req.op == PageOp::ReadPage && req.page_number
                    == address as nat / old(self).page_size() && Some(req.page@) == old(self).scratch()
                    && final(self).started(buffer@, address as nat, length as nat, State::WriteFetch),
            },
    {
        match self.start(buffer, address, length, State::WriteFetch) {
            Ok(page) => Ok(PageRequest { op: PageOp::ReadPage, page_number: address / self.page_size, page }),
            Err(e) => Err(e),
        }
    }

    /// Offset in the page and length of the current chunk.
    fn chunk_exec(&self) -> (r: (usize, usize))
        requires
            self.wf(),
            self.state() != State::Idle,
        ensures
            r.0 == self.offset(),
            r.1 == self.chunk(),
            r.0 + r.1 <= self.page_size(),
            self.copied() + r.1 <= self.buffer().unwrap().len(),
            r.1 <= self.remaining(),
    {
        let offset = self.address % self.page_size;
        let room = self.page_size - offset;
        let len = if room < self.remaining_length {
            room
        } else {
            self.remaining_length
        };
        (offset, len)
    }

    /// The driver finished reading a page into `page`.
    ///
    /// During a read, the wanted part of the page goes into the caller's
    /// buffer; then either the read is done (the scratch page is kept and the
    /// buffer handed back with the operation's length) or the next page is
    /// asked for. During a write, the page is patched with the caller's bytes
    /// and written back. Otherwise the page is handed back untouched.
    pub fn read_complete(&mut self, page: Vec<u8>) -> (r: Completion)
        requires
            old(self).wf(),
            page@.len() == old(self).page_size(),
        ensures
            final(self).wf(),
            final(self).page_size() == old(self).page_size(),
            old(self).state() == State::Read && old(self).remaining() == old(self).chunk() ==> {
                &&& r matches Completion::ReadDone(b, n) && b@ == old(self).read_into(page@) && n
                    == old(self).length()
                &&& final(self).finished_with(*old(self), page@)
            },
            old(self).state() == State::Read && old(self).remaining() != old(self).chunk() ==> {
                &&& r matches Completion::Next(req) && req.op == PageOp::ReadPage && req.page@
                    == page@ && req.page_number == final(self).current_page()
                &&& final(self).advanced_from(*old(self), State::Read, old(self).read_into(page@))
            },
            old(self).state() == State::WriteFetch ==> {
                &&& r matches Completion::Next(req) && req.op == PageOp::WritePage && req.page@
                    == old(self).write_into(page@) && req.page_number == old(self).current_page()
                &&& final(self).wf()
                &&& final(self).state() == State::WriteStore
                &&& final(self).scratch() is None
                &&& final(self).buffer() == old(self).buffer()
                &&& final(self).address() == old(self).address()
                &&& final(self).remaining() == old(self).remaining()
                &&& final(self).copied() == old(self).copied()
                &&& final(self).length() == old(self).length()
            },
            old(self).state() == State::Idle || old(self).state() == State::WriteStore ==> {
                &&& r matches Completion::Ignored(p) && p@ == page@
                &&& *final(self) == *old(self)
            },
    {
        match self.state {
            State::Read => {
                let (offset, len) = self.chunk_exec();
                let mut buffer = self.buffer.take().unwrap();
                copy_bytes(&mut buffer, self.buffer_index, &page, offset, len);
                if self.remaining_length == len {
                    self.pagebuffer = Some(page);
                    self.state = State::Idle;
                    Completion::ReadDone(buffer, self.length)
                } else {
                    self.buffer = Some(buffer);
                    self.remaining_length = self.remaining_length - len;
                    self.address = self.address + len;
                    self.buffer_index = self.buffer_index + len;
                    Completion::Next(
                        PageRequest {
                            op: PageOp::ReadPage,
                            page_number: self.address / self.page_size,
                            page,
                        },
                    )
                }
            },
            State::WriteFetch => {
                let (offset, len) = self.chunk_exec();
                let mut page = page;
                let buffer = self.buffer.take().unwrap();
                copy_bytes(&mut page, offset, &buffer, self.buffer_index, len);
                self.buffer = Some(buffer);
                self.state = State::WriteStore;
                Completion::Next(
                    PageRequest {
                        op: PageOp::WritePage,
                        page_number: self.address / self.page_size,
                        page,
                    },
                )
            },
            _ => Completion::Ignored(page),
        }
    }

    /// The driver finished writing `page` back during a write: either the
    /// write is done (the scratch page is kept and the buffer handed back with
    /// the operation's length) or the next page is asked for. Otherwise the
    /// page is handed back untouched.
    pub fn write_complete(&mut self, page: Vec<u8>) -> (r: Completion)
        requires
            old(self).wf(),
            page@.len() == old(self).page_size(),
        ensures
            final(self).wf(),
            final(self).page_size() == old(self).page_size(),
            old(self).state() == State::WriteStore && old(self).remaining() == old(self).chunk() ==> {
                &&& r matches Completion::WriteDone(b, n) && Some(b@) == old(self).buffer() && n
                    == old(self).length()
                &&& final(self).finished_with(*old(self), page@)
            },
            old(self).state() == State::WriteStore && old(self).remaining() != old(self).chunk() ==> {
                &&& r matches Completion::Next(req) && req.op == PageOp::ReadPage && req.page@
                    == page@ && req.page_number == final(self).current_page()
                &&& final(self).advanced_from(*old(self), State::WriteFetch, old(self).buffer().unwrap())
            },
            old(self).state() != State::WriteStore ==> {
                &&& r matches Completion::Ignored(p) && p@ == page@
                &&& *final(self) == *old(self)
            },
    {
        if self.state != State::WriteStore {
            return Completion::Ignored(page);
        }
        let (_offset, len) = self.chunk_exec();
        if self.remaining_length == len {
            let buffer = self.buffer.take().unwrap();
            self.pagebuffer = Some(page);
            self.state = State::Idle;
            Completion::WriteDone(buffer, self.length)
        } else {
            self.remaining_length = self.remaining_length - len;
            self.address = self.address + len;
            self.buffer_index = self.buffer_index + len;
            self.state = State::WriteFetch;
            Completion::Next(
                PageRequest { op: PageOp::ReadPage, page_number: self.address / self.page_size, page },
            )
        }
    }
}

/// A read puts the right bytes in the right place. Take a read whose bytes
/// so far are those of `storage` from where it started (at `address - copied`)
/// up to the current address. When the driver delivers the page of `storage`
/// that holds the current address, the buffer after `read_complete` holds the
/// bytes of `storage` from where the read started up to the end of the
/// chunk; after the last chunk, all `length` of them.
pub proof fn lemma_read_copies_storage(pre: NonvolatileToPages, storage: Seq<u8>, page: Seq<u8>)
    requires
        pre.wf(),
        pre.state() == State::Read,
        pre.copied() <= pre.address(),
        (pre.current_page() + 1) * pre.page_size() <= storage.len(),
        page == storage.subrange(
            (pre.current_page() * pre.page_size()) as int,
            ((pre.current_page() + 1) * pre.page_size()) as int,
        ),
        pre.buffer().unwrap().take(pre.copied() as int) == storage.subrange(
            pre.address() - pre.copied(),
            pre.address() as int,
        ),
    ensures
        pre.read_into(page).take((pre.copied() + pre.chunk()) as int) == storage.subrange(
            pre.address() - pre.copied(),
            (pre.address() + pre.chunk()) as int,
        ),
        pre.remaining() == pre.chunk() ==> pre.read_into(page).take(pre.length() as int)
            == storage.subrange(pre.address() - pre.copied(), pre.address() - pre.copied() + pre.length()),
{
    let p = pre.page_size() as int;
    let a = pre.address() as int;
    let c = pre.copied() as int;
    let off = pre.offset() as int;
    let len = pre.chunk() as int;
    let buf = pre.buffer().unwrap();
    lemma_fundamental_div_mod(a, p);
    assert(pre.current_page() * pre.page_size() + off == a) by (nonlinear_arith)
        requires
            a == p * (a / p) + a % p,
            off == a % p,
            pre.current_page() == a / p,
            pre.page_size() == p,
    ;
    let cp = pre.current_page() as int;
    assert((cp + 1) * p == cp * p + p && cp * p >= 0) by (nonlinear_arith)
        requires
            cp >= 0,
            p > 0,
    ;
    assert(0 <= off < p);
    assert(off + len <= p);
    assert(c + len <= buf.len());
    assert(page.len() == p);
    let src = page.subrange(off, off + len);
    assert(pre.read_into(page) == buf.take(c) + src + buf.skip(c + len));
    let got = pre.read_into(page).take(c + len);
    let want = storage.subrange(a - c, a + len);
    assert forall|k: int| 0 <= k < c + len implies got[k] == want[k] by {
        if k >= c {
            assert(got[k] == src[k - c]);
            assert(page[off + k - c] == storage[pre.current_page() * pre.page_size() + off + k - c]);
        } else {
            assert(got[k] == buf[k]);
            assert(buf.take(c)[k] == storage.subrange(a - c, a)[k]);
        }
    }
    assert(got =~= want);
}

/// Copies `len` bytes of `src`, from position `from`, into `dst` at `to`.
fn copy_bytes(dst: &mut Vec<u8>, to: usize, src: &Vec<u8>, from: usize, len: usize)
    requires
        to + len <= old(dst).len(),
        from + len <= src.len(),
    ensures
        final(dst)@ == splice(old(dst)@, to as int, src@.subrange(from as int, from + len)),
{
    let mut i: usize = 0;
    while i < len
        invariant
            i <= len,
            to + len <= old(dst).len(),
            dst@.len() == old(dst)@.len(),
            from + len <= src.len(),
            dst@ =~= splice(old(dst)@, to as int, src@.subrange(from as int, from + i)),
        decreases len - i,
    {
        dst.set(to + i, src[from + i]);
        i = i + 1;
        assert(dst@ =~= splice(old(dst)@, to as int, src@.subrange(from as int, from + i)));
    }
}

/// `r` is a refusal with status `code` that hands back a buffer holding `buffer`.
pub open spec fn refused<T>(r: Result<T, (ReturnCode, Vec<u8>)>, code: ReturnCode, buffer: Seq<u8>) -> bool {
    r matches Err((c, b)) && c == code && b@ == buffer
}

} // verus!
