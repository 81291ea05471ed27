//! The packed identity value and its construction from three streams.
use vstd::prelude::*;

use crate::escape::{escape_bytes, escaped};

verus! {

/// Size of the buffer that holds all three parts. Offsets are stored as `u8`,
/// so it cannot be larger than `u8::MAX`.
pub const CAPACITY: usize = 255;

/// The combined streams do not fit in the buffer.
#[derive(Debug, Clone, Copy, PartialEq, Eq, Structural)]
pub struct TooLarge;

/// Motherboard identity: vendor, name and version packed one after another
/// into one buffer, with the exclusive end offset of each part.
///
/// Bytes at and beyond the version's end are always zero, so two values are
/// equal exactly when their three parts and offsets are.
#[derive(Debug, Hash, Clone, Copy, PartialEq, Eq, PartialOrd, Ord)]
pub struct BoardId {
    buffer: [u8; CAPACITY],
    vendor: u8,
    name: u8,
    version: u8,
}

impl BoardId {
    /// The buffer's contents.
    pub closed spec fn bytes(&self) -> Seq<u8> {
        self.buffer@
    }

    /// The exclusive end of the vendor part.
    pub closed spec fn vendor_end(&self) -> int {
        self.vendor as int
    }

    /// The exclusive end of the name part.
    pub closed spec fn name_end(&self) -> int {
        self.name as int
    }

    /// The exclusive end of the version part.
    pub closed spec fn version_end(&self) -> int {
        self.version as int
    }

    #[verifier::type_invariant]
    spec fn inv(&self) -> bool {
        self.wf()
    }

    /// Offsets ordered within the buffer, and the unused tail zeroed.
    pub open spec fn wf(&self) -> bool {
        &&& self.bytes().len() == CAPACITY
        &&& 0 <= self.vendor_end() <= self.name_end() <= self.version_end() <= CAPACITY
        &&& forall|i: int| self.version_end() <= i < CAPACITY ==> #[trigger] self.bytes()[i] == 0
    }
}


/// The contents of an optional stream, or of an optional part.
pub open spec fn opt_view(s: Option<&[u8]>) -> Option<Seq<u8>> {
    match s {
        Some(b) => Some(b@),
        None => None,
    }
}

/// What a stream contributes to its part: its bytes without the last one
/// (the line terminator). An absent or empty stream contributes nothing.
pub open spec fn payload(s: Option<Seq<u8>>) -> Seq<u8> {
    match s {
        Some(b) => if b.len() == 0 {
            Seq::empty()
        } else {
            b.drop_last()
        },
        None => Seq::empty(),
    }
}

/// A stream written from `start` on fits when, after all its bytes, one byte
/// of the buffer is still free to observe the end of the stream.
pub open spec fn fits(start: int, s: Option<Seq<u8>>) -> bool {
    match s {
        Some(b) => start + b.len() < CAPACITY,
        None => true,
    }
}

/// The three streams fit one after another, each written where the previous
/// part ends.
pub open spec fn packs(v: Option<Seq<u8>>, n: Option<Seq<u8>>, ver: Option<Seq<u8>>) -> bool {
    &&& fits(0, v)
    &&& fits(payload(v).len() as int, n)
    &&& fits((payload(v).len() + payload(n).len()) as int, ver)
}

impl BoardId {
    /// The offsets and parts are those that the three streams give.
    pub open spec fn built_from(
        &self,
        v: Option<Seq<u8>>,
        n: Option<Seq<u8>>,
        ver: Option<Seq<u8>>,
    ) -> bool {
        &&& self.vendor_end() == payload(v).len()
        &&& self.name_end() == payload(v).len() + payload(n).len()
        &&& self.version_end() == payload(v).len() + payload(n).len() + payload(ver).len()
        &&& self.bytes().subrange(0, self.vendor_end()) == payload(v)
        &&& self.bytes().subrange(self.vendor_end(), self.name_end()) == payload(n)
        &&& self.bytes().subrange(self.name_end(), self.version_end()) == payload(ver)
    }

    /// The vendor part: present when it ends past the start of the buffer.
    pub open spec fn vendor_part(&self) -> Option<Seq<u8>> {
        if self.vendor_end() > 0 {
            Some(self.bytes().subrange(0, self.vendor_end()))
        } else {
            None
        }
    }

    /// The name part: present when it ends elsewhere than the vendor part.
    pub open spec fn name_part(&self) -> Option<Seq<u8>> {
        if self.vendor_end() != self.name_end() {
            Some(self.bytes().subrange(self.vendor_end(), self.name_end()))
        } else {
            None
        }
    }

    /// The version part: present when it ends past the name part.
    pub open spec fn version_part(&self) -> Option<Seq<u8>> {
        if self.name_end() < self.version_end() {
            Some(self.bytes().subrange(self.name_end(), self.version_end()))
        } else {
            None
        }
    }

    /// The label of this value.
    pub open spec fn label_view(&self) -> Seq<char> {
        label(self.vendor_part(), self.name_part(), self.version_part())
    }
}

/// The label of a board with the given parts: the vendor followed by a space,
/// if there is one; then the name, or "motherboard" where only the vendor is
/// known; then a space and the version, but only after a name. With neither
/// vendor nor name it is "undetected motherboard".
pub open spec fn label(v: Option<Seq<u8>>, n: Option<Seq<u8>>, ver: Option<Seq<u8>>) -> Seq<char> {
    match n {
        Some(name) => {
            let head = match v {
                Some(vendor) => escaped(vendor) + " "@,
                None => Seq::empty(),
            };
            let tail = match ver {
                Some(version) => " "@ + escaped(version),
                None => Seq::empty(),
            };
            head + escaped(name) + tail
        },
        None => match v {
            Some(vendor) => escaped(vendor) + " "@ + "motherboard"@,
            None => "undetected motherboard"@,
        },
    }
}

/// Copies `stream` into `buffer` from `start` on, and returns the length of
/// its payload. Fails when the stream, plus one byte to observe its end, does
/// not fit in what is left of the buffer.
fn read_into(buffer: &mut [u8; CAPACITY], start: usize, stream: &[u8]) -> (r: Result<
    usize,
    TooLarge,
>)
    requires
        start <= CAPACITY,
    ensures
        r is Ok <==> start + stream@.len() < CAPACITY,
        r matches Ok(n) ==> {
            &&& n == payload(Some(stream@)).len()
            &&& final(buffer)@.subrange(start as int, start + n) == payload(Some(stream@))
            &&& final(buffer)@.subrange(0, start as int) == old(buffer)@.subrange(0, start as int)
        },
{
    if stream.len() >= CAPACITY - start {
        return Err(TooLarge);
    }
    let ghost orig = buffer@;
    let mut i: usize = 0;
    while i < stream.len()
        invariant
            0 <= i <= stream@.len(),
            start + stream@.len() < CAPACITY,
            buffer@.len() == CAPACITY,
            orig.len() == CAPACITY,
            forall|j: int| 0 <= j < i ==> #[trigger] buffer@[start + j] == stream@[j],
            forall|j: int| 0 <= j < start ==> #[trigger] buffer@[j] == orig[j],
        decreases stream@.len() - i,
    {
        buffer[start + i] = stream[i];
        i = i + 1;
    }
    let n: usize = if stream.len() == 0 {
        0
    } else {
        stream.len() - 1
    };
    assert forall|k: int| 0 <= k < n implies buffer@.subrange(start as int, start + n)[k]
        == payload(Some(stream@))[k] by {
        assert(buffer@[start + k] == stream@[k]);
    }
    assert(buffer@.subrange(start as int, start + n) =~= payload(Some(stream@)));
    assert(buffer@.subrange(0, start as int) =~= orig.subrange(0, start as int));
    Ok(n)
}

impl BoardId {
    /// Packs the vendor, name and version streams, in that order, into one
    /// value. Each stream holds its part followed by one line terminator,
    /// which is dropped; an absent stream, or one that holds only the
    /// terminator, leaves its part absent. Fails, with nothing built, when
    /// the streams do not fit in the buffer.
    pub fn from_streams(vendor: Option<&[u8]>, name: Option<&[u8]>, version: Option<&[u8]>) -> (r:
        Result<BoardId, TooLarge>)
        ensures
            r is Ok <==> packs(opt_view(vendor), opt_view(name), opt_view(version)),
            r matches Ok(b) ==> b.built_from(opt_view(vendor), opt_view(name), opt_view(version)),
            r matches Ok(b) ==> b.wf(),
    {
        let mut buffer = [0u8; CAPACITY];
        let ghost pv = payload(opt_view(vendor));
        let ghost pn = payload(opt_view(name));
        let ghost pver = payload(opt_view(version));
        let vendor_count: usize = match vendor {
            Some(s) => match read_into(&mut buffer, 0, s) {
                Ok(n) => n,
                Err(e) => return Err(e),
            },
            None => 0,
        };
        let ghost after_vendor = buffer@;
        assert(after_vendor.subrange(0, vendor_count as int) =~= pv);
        let name_count: usize = match name {
            Some(s) => match read_into(&mut buffer, vendor_count, s) {
                Ok(n) => n,
                Err(e) => return Err(e),
            },
            None => 0,
        };
        let name_end: usize = vendor_count + name_count;
        let ghost after_name = buffer@;
        assert(after_name.subrange(vendor_count as int, name_end as int) =~= pn);
        assert(after_name.subrange(0, vendor_count as int) =~= pv);
        let version_count: usize = match version {
            Some(s) => match read_into(&mut buffer, name_end, s) {
                Ok(n) => n,
                Err(e) => return Err(e),
            },
            None => 0,
        };
        let version_end: usize = name_end + version_count;
        let ghost packed = buffer@;
        assert(packed.subrange(name_end as int, version_end as int) =~= pver);
        // The version stream kept everything before the name's end, so both
        // earlier parts are still in place.
        assert(packed.subrange(0, name_end as int).subrange(0, vendor_count as int)
            =~= packed.subrange(0, vendor_count as int));
        assert(packed.subrange(0, name_end as int).subrange(vendor_count as int, name_end as int)
            =~= packed.subrange(vendor_count as int, name_end as int));
        assert(after_name.subrange(0, name_end as int).subrange(0, vendor_count as int)
            =~= after_name.subrange(0, vendor_count as int));
        assert(after_name.subrange(0, name_end as int).subrange(vendor_count as int, name_end as int)
            =~= after_name.subrange(vendor_count as int, name_end as int));
        let mut i: usize = version_end;
        while i < CAPACITY
            invariant
                version_end <= i <= CAPACITY,
                buffer@.len() == CAPACITY,
                packed.len() == CAPACITY,
                forall|j: int| 0 <= j < version_end ==> #[trigger] buffer@[j] == packed[j],
                forall|j: int| version_end <= j < i ==> #[trigger] buffer@[j] == 0,
            decreases CAPACITY - i,
        {
            buffer[i] = 0;
            i = i + 1;
        }
        let b = BoardId {
            buffer,
            vendor: vendor_count as u8,
            name: name_end as u8,
            version: version_end as u8,
        };
        assert(b.bytes().subrange(0, b.vendor_end()) =~= packed.subrange(0, vendor_count as int));
        assert(b.bytes().subrange(b.vendor_end(), b.name_end()) =~= packed.subrange(
            vendor_count as int,
            name_end as int,
        ));
        assert(b.bytes().subrange(b.name_end(), b.version_end()) =~= packed.subrange(
            name_end as int,
            version_end as int,
        ));
        Ok(b)
    }

    /// The vendor / brand of the board, if known.
    pub fn vendor(&self) -> (r: Option<&[u8]>)
        ensures
            opt_view(r) == self.vendor_part(),
    {
        proof {
            use_type_invariant(self);
        }
        if self.vendor > 0 {
            Some(&self.buffer[0..self.vendor as usize])
        } else {
            None
        }
    }

    /// The name / model of the board, if known.
    pub fn name(&self) -> (r: Option<&[u8]>)
        ensures
            opt_view(r) == self.name_part(),
    {
        proof {
            use_type_invariant(self);
        }
        if self.vendor != self.name {
            Some(&self.buffer[self.vendor as usize..self.name as usize])
        } else {
            None
        }
    }

    /// The version of the board, if known.
    pub fn version(&self) -> (r: Option<&[u8]>)
        ensures
            opt_view(r) == self.version_part(),
    {
        proof {
            use_type_invariant(self);
        }
        if self.name < self.version {
            Some(&self.buffer[self.name as usize..self.version as usize])
        } else {
            None
        }
    }

    /// A one-line label for the board: "<vendor> <name> <version>", with
    /// bytes outside printable ASCII escaped. A vendor without a name reads
    /// "<vendor> motherboard"; the version is shown only after a name; with
    /// neither vendor nor name the label is "undetected motherboard".
    pub fn to_string(&self) -> (r: String)
        ensures
            r@ == self.label_view(),
    {
        let mut out = String::new();
        let wrote_vendor = match self.vendor() {
            Some(v) => {
                let e = escape_bytes(v);
                out.append(e.as_str());
                out.append(" ");
                true
            },
            None => false,
        };
        let detected_name = match self.name() {
            Some(n) => {
                let e = escape_bytes(n);
                out.append(e.as_str());
                true
            },
            None => {
                if wrote_vendor {
                    out.append("motherboard");
                    false
                } else {
                    out.append("undetected motherboard");
                    assert(out@ =~= self.label_view());
                    return out;
                }
            },
        };
        if detected_name {
            match self.version() {
                Some(ver) => {
                    let e = escape_bytes(ver);
                    out.append(" ");
                    out.append(e.as_str());
                },
                None => {},
            }
        }
        assert(out@ =~= self.label_view());
        out
    }
}

} // verus!
