//! The Linux kernel's crypto API: what it offers, how it is asked, and what
//! the optional kernel module measured of it.
//!
//! From user space the kernel's ciphers are reached through a socket family.
//! What travels over it, and what each answer means, is worked out here; the
//! socket itself is the caller's.
use crate::machine::Target;
use crate::text::{
    chars_of, contains, lines, parse_i32, parse_unsigned, same, same_text, split_last,
    split_once, string_of, to_lower, trim, trim_end, Trim,
};
use vstd::prelude::*;
use vstd::slice::slice_subrange;

verus! {

// ---------------------------------------------------------------------------
// What the kernel lists
// ---------------------------------------------------------------------------

/// One algorithm the kernel offers, as it describes it.
#[derive(Debug, Clone, PartialEq, Eq)]
pub struct Driver {
    /// What the algorithm is called. Several implementations may answer to it.
    pub name: String,
    /// Which implementation this is.
    pub driver: String,
    /// `skcipher`, `shash`, `aead` and so on.
    pub kind: String,
    /// Higher wins when several implementations offer the same name.
    pub priority: i32,
    pub module: String,
    /// Building blocks that cannot be bound to.
    pub internal: bool,
    pub selftest_passed: bool,
}

/// What a [`Driver`] says.
#[verifier::ext_equal]
pub struct DriverView {
    pub name: Seq<char>,
    pub driver: Seq<char>,
    pub kind: Seq<char>,
    pub priority: i32,
    pub module: Seq<char>,
    pub internal: bool,
    pub selftest_passed: bool,
}

impl View for Driver {
    type V = DriverView;

    open spec fn view(&self) -> DriverView {
        DriverView {
            name: self.name@,
            driver: self.driver@,
            kind: self.kind@,
            priority: self.priority,
            module: self.module@,
            internal: self.internal,
            selftest_passed: self.selftest_passed,
        }
    }
}

/// Whether a driver's name holds one of the marks by which accelerated
/// implementations are named.
pub open spec fn marked_accelerated(driver: Seq<char>) -> bool {
    let small = crate::text::lowered(driver);
    ||| crate::text::has_text(small, "aesni"@)
    ||| crate::text::has_text(small, "vaes"@)
    ||| crate::text::has_text(small, "avx"@)
    ||| crate::text::has_text(small, "sse"@)
    ||| crate::text::has_text(small, "ssse3"@)
    ||| crate::text::has_text(small, "neon"@)
    ||| crate::text::has_text(small, "-ce"@)
    ||| crate::text::has_text(small, "ce-"@)
    ||| crate::text::has_text(small, "sha_ni"@)
    ||| crate::text::has_text(small, "shani"@)
    ||| crate::text::has_text(small, "asm"@)
    ||| crate::text::has_text(small, "clmul"@)
    ||| crate::text::has_text(small, "pclmul"@)
    ||| crate::text::has_text(small, "armv8"@)
    ||| crate::text::has_text(small, "vpmsum"@)
    ||| crate::text::has_text(small, "s390"@)
}

impl Driver {
    /// Whether the driver's name suggests a hardware-accelerated path. A
    /// guess: `false` means that nothing in the name says so.
    pub fn looks_accelerated(&self) -> (accelerated: bool)
        ensures
            accelerated == marked_accelerated(self.driver@),
    {
        let chars: Vec<char> = chars_of(self.driver.as_str());
        let small: Vec<char> = to_lower(chars.as_slice());
        let s: &[char] = small.as_slice();
        contains(s, "aesni") || contains(s, "vaes") || contains(s, "avx") || contains(s, "sse")
            || contains(s, "ssse3") || contains(s, "neon") || contains(s, "-ce") || contains(
            s,
            "ce-",
        ) || contains(s, "sha_ni") || contains(s, "shani") || contains(s, "asm") || contains(
            s,
            "clmul",
        ) || contains(s, "pclmul") || contains(s, "armv8") || contains(s, "vpmsum") || contains(
            s,
            "s390",
        )
    }
}

/// A stanza as it begins.
pub open spec fn fresh(name: Seq<char>) -> DriverView {
    DriverView {
        name,
        driver: Seq::empty(),
        kind: Seq::empty(),
        priority: 0,
        module: Seq::empty(),
        internal: false,
        selftest_passed: false,
    }
}

/// What one `key : value` line says of the stanza it stands in.
pub open spec fn told(d: DriverView, key: Seq<char>, value: Seq<char>) -> DriverView {
    if key == "driver"@ {
        DriverView { driver: value, ..d }
    } else if key == "type"@ {
        DriverView { kind: value, ..d }
    } else if key == "priority"@ {
        DriverView {
            priority: match crate::text::signed_value(value, i32::MIN as int, i32::MAX as int) {
                Some(n) => n as i32,
                None => 0,
            },
            ..d
        }
    } else if key == "module"@ {
        DriverView { module: value, ..d }
    } else if key == "internal"@ {
        DriverView { internal: value == "yes"@, ..d }
    } else if key == "selftest"@ {
        DriverView { selftest_passed: value == "passed"@, ..d }
    } else {
        d
    }
}

/// Where a reader of the list stands: the stanzas it has finished, and the
/// one it is in.
#[verifier::ext_equal]
pub struct Listing {
    pub done: Seq<DriverView>,
    pub current: Option<DriverView>,
}

impl Listing {
    /// The open stanza is finished.
    pub open spec fn closed(self) -> Seq<DriverView> {
        match self.current {
            Some(d) => self.done.push(d),
            None => self.done,
        }
    }

    /// One more line. A blank one ends a stanza, a name begins one, and what
    /// stands before the first name says nothing.
    pub open spec fn after(self, raw: Seq<char>) -> Listing {
        let line = crate::text::trimmed_end(raw, Trim::Space);
        if line.len() == 0 {
            Listing { done: self.closed(), current: None }
        } else {
            match crate::text::parted(line, ':') {
                None => self,
                Some((key, value)) => {
                    let key = crate::text::trimmed(key, Trim::Space);
                    let value = crate::text::trimmed(value, Trim::Space);
                    if key == "name"@ {
                        Listing { done: self.closed(), current: Some(fresh(value)) }
                    } else {
                        match self.current {
                            None => self,
                            Some(d) => Listing { current: Some(told(d, key, value)), ..self },
                        }
                    }
                },
            }
        }
    }
}

/// The reader after some lines.
pub open spec fn listed(lines: Seq<Seq<char>>) -> Listing
    decreases lines.len(),
{
    if lines.len() == 0 {
        Listing { done: Seq::empty(), current: None }
    } else {
        listed(lines.drop_last()).after(lines.last())
    }
}

/// The algorithms a listing describes.
pub open spec fn described(text: Seq<char>) -> Seq<DriverView> {
    listed(crate::text::text_lines(text)).closed()
}

/// What several drivers say.
pub open spec fn drivers_view(drivers: Seq<Driver>) -> Seq<DriverView> {
    drivers.map_values(|d: Driver| d@)
}

/// What an optional driver says.
pub open spec fn driver_view(driver: Option<Driver>) -> Option<DriverView> {
    match driver {
        Some(d) => Some(d@),
        None => None,
    }
}

fn tell(d: Driver, key: &[char], value: &[char]) -> (after: Driver)
    ensures
        after@ == told(d@, key@, value@),
{
    let mut entry: Driver = d;
    if same(key, "driver") {
        entry.driver = string_of(value);
    } else if same(key, "type") {
        entry.kind = string_of(value);
    } else if same(key, "priority") {
        entry.priority = match parse_i32(value) {
            Some(n) => n,
            None => 0,
        };
    } else if same(key, "module") {
        entry.module = string_of(value);
    } else if same(key, "internal") {
        entry.internal = same(value, "yes");
    } else if same(key, "selftest") {
        entry.selftest_passed = same(value, "passed");
    }
    entry
}

fn close(done: &mut Vec<Driver>, current: Option<Driver>)
    ensures
        drivers_view(final(done)@) == (Listing {
            done: drivers_view(old(done)@),
            current: driver_view(current),
        }).closed(),
{
    match current {
        Some(d) => {
            let ghost before = done@;
            done.push(d);
            assert(drivers_view(done@) =~= drivers_view(before).push(d@));
        },
        None => {},
    }
}

fn take_line(done: &mut Vec<Driver>, current: Option<Driver>, raw: &[char]) -> (now: Option<Driver>)
    ensures
        (Listing { done: drivers_view(final(done)@), current: driver_view(now) }) == (Listing {
            done: drivers_view(old(done)@),
            current: driver_view(current),
        }).after(raw@),
{
    let line: &[char] = trim_end(raw, Trim::Space);
    if line.len() == 0 {
        close(done, current);
        return None;
    }
    match split_once(line, ':') {
        None => current,
        Some((key, value)) => {
            let key: &[char] = trim(key, Trim::Space);
            let value: &[char] = trim(value, Trim::Space);
            if same(key, "name") {
                close(done, current);
                let nothing: &[char] = slice_subrange(raw, 0, 0);
                assert(nothing@ =~= Seq::<char>::empty());
                let d: Driver = Driver {
                    name: string_of(value),
                    driver: string_of(nothing),
                    kind: string_of(nothing),
                    priority: 0,
                    module: string_of(nothing),
                    internal: false,
                    selftest_passed: false,
                };
                assert(d@ == fresh(value@));
                return Some(d);
            }
            match current {
                None => None,
                Some(d) => Some(tell(d, key, value)),
            }
        },
    }
}

/// Reads the `name : value` stanzas the kernel's list is made of.
pub fn parse_proc_crypto(text: &str) -> (out: Vec<Driver>)
    ensures
        drivers_view(out@) == described(text@),
{
    let chars: Vec<char> = chars_of(text);
    let parts: Vec<&[char]> = lines(chars.as_slice());
    let ghost all = crate::text::text_lines(text@);
    let mut out: Vec<Driver> = Vec::new();
    let mut current: Option<Driver> = None;
    let mut i: usize = 0;
    assert(drivers_view(out@) =~= Seq::empty());
    assert(all.take(0) =~= Seq::empty());
    while i < parts.len()
        invariant
            i <= parts.len(),
            all == crate::text::parts_view(parts@),
            (Listing { done: drivers_view(out@), current: driver_view(current) }) == listed(
                all.take(i as int),
            ),
        decreases parts.len() - i,
    {
        assert(all.take(i + 1).drop_last() =~= all.take(i as int));
        assert(all.take(i + 1).last() == parts@[i as int]@);
        current = take_line(&mut out, current, parts[i]);
        i = i + 1;
    }
    assert(all.take(i as int) =~= all);
    close(&mut out, current);
    out
}

/// Everything the kernel lists: nothing, where there is no list to read.
pub fn drivers(text: &Option<String>) -> (out: Vec<Driver>)
    ensures
        drivers_view(out@) == (match text {
            Some(text) => described(text@),
            None => Seq::empty(),
        }),
{
    match text {
        Some(text) => parse_proc_crypto(text.as_str()),
        None => {
            let out: Vec<Driver> = Vec::new();
            assert(drivers_view(out@) =~= Seq::empty());
            out
        },
    }
}

/// Whether a driver can be had under a name.
pub open spec fn answers_to(d: DriverView, name: Seq<char>) -> bool {
    d.name == name && !d.internal
}

/// Whether the driver at `i` is the one the kernel would choose: of those
/// that answer to the name none has a higher priority, and none of the same
/// priority comes later.
pub open spec fn chosen(drivers: Seq<DriverView>, name: Seq<char>, i: int) -> bool {
    &&& 0 <= i < drivers.len()
    &&& answers_to(drivers[i], name)
    &&& forall|j: int|
        0 <= j < drivers.len() && #[trigger] answers_to(drivers[j], name) ==> {
            if j <= i {
                drivers[j].priority <= drivers[i].priority
            } else {
                drivers[j].priority < drivers[i].priority
            }
        }
}

/// The implementation the kernel would choose for a name: the highest
/// priority wins, and what cannot be bound to is skipped.
pub fn driver_for<'a>(drivers: &'a Vec<Driver>, name: &str) -> (driver: Option<&'a Driver>)
    ensures
        match driver {
            Some(driver) => exists|i: int| #[trigger]
                chosen(drivers_view(drivers@), name@, i) && *driver == drivers@[i],
            None => forall|j: int|
                0 <= j < drivers@.len() ==> !#[trigger] answers_to(drivers@[j]@, name@),
        },
{
    let ghost all = drivers_view(drivers@);
    let mut best: Option<usize> = None;
    let mut i: usize = 0;
    while i < drivers.len()
        invariant
            i <= drivers.len(),
            all == drivers_view(drivers@),
            match best {
                Some(b) => chosen(all.take(i as int), name@, b as int),
                None => forall|j: int|
                    0 <= j < i ==> !#[trigger] answers_to(drivers@[j]@, name@),
            },
        decreases drivers.len() - i,
    {
        let d: &Driver = &drivers[i];
        let ghost shorter = all.take(i as int);
        let ghost longer = all.take(i + 1);
        proof {
            assert(longer =~= shorter.push(all[i as int]));
            assert(longer[i as int] == d@);
            assert forall|j: int| 0 <= j < i implies longer[j] == shorter[j] by {}
        }
        if !d.internal && same_text(d.name.as_str(), name) {
            match best {
                Some(b) => {
                    if drivers[b].priority <= d.priority {
                        assert(shorter[b as int] == drivers@[b as int]@);
                        best = Some(i);
                        assert forall|j: int|
                            0 <= j < longer.len() && #[trigger] answers_to(
                                longer[j],
                                name@,
                            ) implies longer[j].priority <= longer[i as int].priority by {
                            if j < i {
                                assert(answers_to(shorter[j], name@));
                            }
                        }
                        assert(chosen(longer, name@, i as int));
                    } else {
                        assert(shorter[b as int] == drivers@[b as int]@);
                        assert forall|j: int|
                            0 <= j < longer.len() && #[trigger] answers_to(
                                longer[j],
                                name@,
                            ) implies (if j <= b {
                            longer[j].priority <= longer[b as int].priority
                        } else {
                            longer[j].priority < longer[b as int].priority
                        }) by {
                            if j < i {
                                assert(answers_to(shorter[j], name@));
                            }
                        }
                        assert(chosen(longer, name@, b as int));
                    }
                },
                None => {
                    best = Some(i);
                    assert forall|j: int|
                        0 <= j < longer.len() && #[trigger] answers_to(
                            longer[j],
                            name@,
                        ) implies j == i by {
                        if j < i {
                            assert(!answers_to(drivers@[j]@, name@));
                        }
                    }
                    assert(chosen(longer, name@, i as int));
                },
            }
        } else {
            assert(!answers_to(d@, name@));
            proof {
                if let Some(b) = best {
                    assert forall|j: int|
                        0 <= j < longer.len() && #[trigger] answers_to(longer[j], name@) implies (
                    if j <= b {
                        longer[j].priority <= longer[b as int].priority
                    } else {
                        longer[j].priority < longer[b as int].priority
                    }) by {
                        assert(j < i);
                        assert(answers_to(shorter[j], name@));
                    }
                    assert(chosen(longer, name@, b as int));
                }
            }
        }
        i = i + 1;
    }
    assert(all.take(i as int) =~= all);
    match best {
        Some(b) => {
            assert(chosen(all, name@, b as int));
            Some(&drivers[b])
        },
        None => None,
    }
}

/// At most one driver is the kernel's choice.
pub proof fn the_choice_is_unique(drivers: Seq<DriverView>, name: Seq<char>, i: int, j: int)
    requires
        chosen(drivers, name, i),
        chosen(drivers, name, j),
    ensures
        i == j,
{
    assert(answers_to(drivers[i], name));
    assert(answers_to(drivers[j], name));
}

// ---------------------------------------------------------------------------
// Asking over a socket
// ---------------------------------------------------------------------------

/// Which of the kernel's algorithm types a session speaks.
#[derive(Debug, Clone, Copy, PartialEq, Eq, Structural)]
pub enum Kind {
    /// No key and no vector: write, then read.
    Hash,
    /// A key for the session, a vector for each operation.
    Skcipher,
}

impl Kind {
    pub open spec fn kind_name(self) -> Seq<u8> {
        match self {
            Kind::Hash => seq![0x68u8, 0x61, 0x73, 0x68],
            Kind::Skcipher => seq![0x73u8, 0x6b, 0x63, 0x69, 0x70, 0x68, 0x65, 0x72],
        }
    }

    /// The kernel's name for the type, as the bytes of an address.
    pub fn salg_type(self) -> (bytes: Vec<u8>)
        ensures
            bytes@ == self.kind_name(),
    {
        let bytes: Vec<u8> = match self {
            Kind::Hash => vec![0x68, 0x61, 0x73, 0x68],
            Kind::Skcipher => vec![0x73, 0x6b, 0x63, 0x69, 0x70, 0x68, 0x65, 0x72],
        };
        assert(bytes@ =~= self.kind_name());
        bytes
    }
}

/// Why a request never reached the kernel.
#[derive(Debug, Clone, Copy, PartialEq, Eq, Structural)]
pub enum RequestError {
    InvalidInput,
    /// The kernel's crypto is not reached this way on this system.
    Unsupported,
}

impl RequestError {
    pub open spec fn text(self) -> Seq<char> {
        match self {
            RequestError::InvalidInput => "invalid input parameter"@,
            RequestError::Unsupported =>
                "the kernel crypto API is reached through AF_ALG, which is Linux's"@,
        }
    }

    /// The error in words.
    pub fn message(self) -> (text: &'static str)
        ensures
            text@ == self.text(),
    {
        match self {
            RequestError::InvalidInput => "invalid input parameter",
            RequestError::Unsupported =>
                "the kernel crypto API is reached through AF_ALG, which is Linux's",
        }
    }
}

/// How many bytes an address holds for the type.
pub const SALG_TYPE_WIDTH: usize = 14;

/// How many bytes an address holds for the algorithm's name.
pub const SALG_NAME_WIDTH: usize = 64;

/// Bytes in a field that is filled up with zeros.
pub open spec fn field(bytes: Seq<u8>, width: int) -> Seq<u8> {
    bytes + Seq::new((width - bytes.len()) as nat, |i: int| 0u8)
}

fn fill_field(bytes: &[u8], width: usize) -> (out: Vec<u8>)
    requires
        bytes.len() < width,
    ensures
        out@ == field(bytes@, width as int),
{
    let mut out: Vec<u8> = Vec::new();
    let mut i: usize = 0;
    while i < width
        invariant
            bytes.len() < width,
            i <= width,
            out@ == field(bytes@, width as int).take(i as int),
        decreases width - i,
    {
        out.push(if i < bytes.len() {
            bytes[i]
        } else {
            0
        });
        i = i + 1;
        assert(out@ =~= field(bytes@, width as int).take(i as int));
    }
    assert(out@ =~= field(bytes@, width as int));
    out
}

/// The address an algorithm is bound by: its type and its name, each ended
/// by a zero inside its field.
#[derive(Debug, PartialEq, Eq)]
pub struct AlgAddress {
    pub salg_type: Vec<u8>,
    pub salg_name: Vec<u8>,
}

/// The address of an algorithm. A name that does not fit is refused rather
/// than cut short into a request for another algorithm.
pub fn alg_address(target: &Target, kind: Kind, algorithm: &[u8]) -> (address: Result<
    AlgAddress,
    RequestError,
>)
    ensures
        match address {
            Ok(address) => {
                &&& target.linux && algorithm.len() < 64
                &&& address.salg_type@ == field(kind.kind_name(), 14)
                &&& address.salg_name@ == field(algorithm@, 64)
            },
            Err(RequestError::Unsupported) => !target.linux,
            Err(RequestError::InvalidInput) => target.linux && algorithm.len() >= 64,
        },
{
    if !target.linux {
        return Err(RequestError::Unsupported);
    }
    if algorithm.len() >= SALG_NAME_WIDTH {
        return Err(RequestError::InvalidInput);
    }
    let kind_bytes: Vec<u8> = kind.salg_type();
    Ok(
        AlgAddress {
            salg_type: fill_field(kind_bytes.as_slice(), SALG_TYPE_WIDTH),
            salg_name: fill_field(algorithm, SALG_NAME_WIDTH),
        },
    )
}

/// No two names share an address: what is bound is what was asked for. A
/// name holds no zeros.
pub proof fn addresses_tell_names_apart(a: Seq<u8>, b: Seq<u8>)
    requires
        a.len() < 64,
        b.len() < 64,
        forall|i: int| 0 <= i < a.len() ==> #[trigger] a[i] != 0,
        forall|i: int| 0 <= i < b.len() ==> #[trigger] b[i] != 0,
        field(a, 64) == field(b, 64),
    ensures
        a == b,
{
    let f = field(a, 64);
    let g = field(b, 64);
    if a.len() < b.len() {
        assert(f[a.len() as int] == 0);
        assert(g[a.len() as int] == b[a.len() as int]);
    }
    if b.len() < a.len() {
        assert(g[b.len() as int] == 0);
        assert(f[b.len() as int] == a[b.len() as int]);
    }
    assert forall|i: int| 0 <= i < a.len() implies a[i] == b[i] by {
        assert(f[i] == a[i]);
        assert(g[i] == b[i]);
    }
    assert(a =~= b);
}

/// The longest vector any mode here uses.
pub const MAX_IV: usize = 16;

/// A vector as it is sent: its length in the machine's byte order, then its
/// bytes.
pub open spec fn sent_iv(iv: Seq<u8>, little_endian: bool) -> Seq<u8> {
    let n = iv.len() as u8;
    (if little_endian {
        seq![n, 0u8, 0u8, 0u8]
    } else {
        seq![0u8, 0u8, 0u8, n]
    }) + iv
}

/// The vector's part of a cipher request.
pub fn iv_block(iv: &[u8], little_endian: bool) -> (block: Result<Vec<u8>, RequestError>)
    ensures
        match block {
            Ok(block) => iv.len() <= 16 && block@ == sent_iv(iv@, little_endian),
            Err(e) => iv.len() > 16 && e is InvalidInput,
        },
{
    if iv.len() > MAX_IV {
        return Err(RequestError::InvalidInput);
    }
    let n: u8 = iv.len() as u8;
    let mut block: Vec<u8> = if little_endian {
        vec![n, 0, 0, 0]
    } else {
        vec![0, 0, 0, n]
    };
    let ghost head = block@;
    assert(head =~= (if little_endian {
        seq![n, 0u8, 0u8, 0u8]
    } else {
        seq![0u8, 0u8, 0u8, n]
    }));
    let mut i: usize = 0;
    while i < iv.len()
        invariant
            i <= iv.len(),
            block@ == head + iv@.take(i as int),
        decreases iv.len() - i,
    {
        block.push(iv[i]);
        i = i + 1;
        assert(block@ =~= head + iv@.take(i as int));
    }
    assert(iv@.take(i as int) =~= iv@);
    Ok(block)
}

/// Whether a session may hash.
pub fn check_digest(kind: Kind) -> (checked: Result<(), RequestError>)
    ensures
        checked == (if kind is Hash {
            Ok::<(), RequestError>(())
        } else {
            Err(RequestError::InvalidInput)
        }),
{
    if matches!(kind, Kind::Hash) {
        Ok(())
    } else {
        Err(RequestError::InvalidInput)
    }
}

/// Whether a session may encrypt, into room for as many bytes as go in: a
/// short buffer would be a partial read reported as a fast one.
pub fn check_encrypt(kind: Kind, data: usize, out: usize) -> (checked: Result<(), RequestError>)
    ensures
        checked == (if kind is Skcipher && out >= data {
            Ok::<(), RequestError>(())
        } else {
            Err(RequestError::InvalidInput)
        }),
{
    if matches!(kind, Kind::Skcipher) && out >= data {
        Ok(())
    } else {
        Err(RequestError::InvalidInput)
    }
}

/// What to do after one call that moved some of a buffer.
#[derive(Debug, Clone, Copy, PartialEq, Eq, Structural)]
pub enum Progress {
    /// Call again, from this offset.
    Again { from: usize },
    /// All that will come has: this many bytes.
    Done { moved: usize },
    /// The call failed.
    Failed,
    /// A write that takes nothing would go on forever.
    Stalled,
}

/// After a write of part of a buffer. All of it has to go: a hash of less
/// would be another hash.
pub fn after_write(total: usize, from: usize, written: i64) -> (progress: Progress)
    requires
        from < total,
        written <= total - from,
    ensures
        progress == (if written < 0 {
            Progress::Failed
        } else if written == 0 {
            Progress::Stalled
        } else if from + written < total {
            Progress::Again { from: (from + written) as usize }
        } else {
            Progress::Done { moved: total }
        }),
{
    if written < 0 {
        Progress::Failed
    } else if written == 0 {
        Progress::Stalled
    } else {
        let next: usize = from + written as usize;
        if next < total {
            Progress::Again { from: next }
        } else {
            Progress::Done { moved: total }
        }
    }
}

/// After a read into part of a buffer. A large one comes in several reads,
/// and stopping at the first would time a fraction of the work.
pub fn after_read(total: usize, from: usize, read: i64) -> (progress: Progress)
    requires
        from < total,
        read <= total - from,
    ensures
        progress == (if read < 0 {
            Progress::Failed
        } else if read > 0 && from + read < total {
            Progress::Again { from: (from + read) as usize }
        } else {
            Progress::Done { moved: (from + read) as usize }
        }),
{
    if read < 0 {
        Progress::Failed
    } else {
        let next: usize = from + read as usize;
        if read > 0 && next < total {
            Progress::Again { from: next }
        } else {
            Progress::Done { moved: next }
        }
    }
}

/// Every call that asks for another leaves less to move, so the calls end.
pub proof fn transfers_end(total: usize, from: usize, moved: i64)
    requires
        from < total,
        0 < moved <= total - from,
        from + moved < total,
    ensures
        0 < total - (from + moved) < total - from,
{
}

/// The descriptors of a session: the one bound to the algorithm and the one
/// accepted from it, each -1 until it is open.
#[derive(Debug, Clone, Copy, PartialEq, Eq, Structural)]
pub struct Descriptors {
    pub bound: i32,
    pub op: i32,
}

impl Descriptors {
    /// The descriptors a session owns, in the order it closes them.
    pub open spec fn owned(self) -> Seq<i32> {
        (if self.op >= 0 {
            seq![self.op]
        } else {
            Seq::empty()
        }) + (if self.bound >= 0 {
            seq![self.bound]
        } else {
            Seq::empty()
        })
    }

    /// Hands over what is to be closed. Nothing is owned afterwards, so
    /// nothing is closed twice.
    pub fn close(&mut self) -> (fds: Vec<i32>)
        ensures
            fds@ == old(self).owned(),
            final(self).owned() == Seq::<i32>::empty(),
    {
        let mut fds: Vec<i32> = Vec::new();
        if self.op >= 0 {
            fds.push(self.op);
        }
        if self.bound >= 0 {
            fds.push(self.bound);
        }
        assert(fds@ =~= old(self).owned());
        self.op = -1;
        self.bound = -1;
        assert(self.owned() =~= Seq::<i32>::empty());
        fds
    }
}

/// Whether the kernel's crypto can be reached at all: a socket could be
/// opened, which is the only honest test.
pub fn available(target: &Target, socket: i32) -> (available: bool)
    ensures
        available == (target.linux && socket >= 0),
{
    target.linux && socket >= 0
}

// ---------------------------------------------------------------------------
// What the kernel module measured
// ---------------------------------------------------------------------------

/// What the kernel module reported: the same algorithms with no socket, no
/// system call and no copy.
#[derive(Debug, Clone, PartialEq, Eq)]
pub struct Ring0 {
    /// For each algorithm the best cycle count of one digest.
    pub timings: Vec<(String, u64)>,
    /// Bytes per operation.
    pub payload_bytes: usize,
    /// How many operations were timed, taking the best.
    pub rounds: usize,
}

/// What a [`Ring0`] says.
#[verifier::ext_equal]
pub struct Ring0View {
    pub timings: Seq<(Seq<char>, u64)>,
    pub payload_bytes: int,
    pub rounds: int,
}

/// What several timings say.
pub open spec fn timings_view(timings: Seq<(String, u64)>) -> Seq<(Seq<char>, u64)> {
    timings.map_values(|t: (String, u64)| (t.0@, t.1))
}

impl View for Ring0 {
    type V = Ring0View;

    open spec fn view(&self) -> Ring0View {
        Ring0View {
            timings: timings_view(self.timings@),
            payload_bytes: self.payload_bytes as int,
            rounds: self.rounds as int,
        }
    }
}

impl Default for Ring0 {
    fn default() -> (report: Ring0)
        ensures
            report@ == empty_report(),
    {
        let report: Ring0 = Ring0 { timings: Vec::new(), payload_bytes: 0, rounds: 0 };
        assert(report@ =~= empty_report());
        report
    }
}

/// A report that says nothing.
pub open spec fn empty_report() -> Ring0View {
    Ring0View { timings: Seq::empty(), payload_bytes: 0, rounds: 0 }
}

/// A count as the module writes it, or zero where it is none.
pub open spec fn count_of(value: Seq<char>) -> int {
    match crate::text::unsigned_value(value, 10, usize::MAX as int) {
        Some(n) => n,
        None => 0,
    }
}

/// The timing a `name,cycles` value holds. The name may hold commas, the
/// count never does.
pub open spec fn timing_of(value: Seq<char>) -> Option<(Seq<char>, u64)> {
    match crate::text::parted_last(value, ',') {
        Some((name, cycles)) => match crate::text::unsigned_value(
            crate::text::trimmed(cycles, Trim::Space),
            10,
            u64::MAX as int,
        ) {
            Some(n) => Some((name, n as u64)),
            None => None,
        },
        None => None,
    }
}

/// What one line adds to a report. What is not known is skipped.
pub open spec fn reported(r: Ring0View, raw: Seq<char>) -> Ring0View {
    match crate::text::parted(crate::text::trimmed(raw, Trim::Space), '=') {
        None => r,
        Some((key, value)) => if key == "crypto_payload_bytes"@ {
            Ring0View { payload_bytes: count_of(value), ..r }
        } else if key == "crypto_rounds"@ {
            Ring0View { rounds: count_of(value), ..r }
        } else if key == "crypto"@ {
            match timing_of(value) {
                Some(t) => Ring0View { timings: r.timings.push(t), ..r },
                None => r,
            }
        } else {
            r
        },
    }
}

/// The report some lines make.
pub open spec fn reported_by(lines: Seq<Seq<char>>) -> Ring0View
    decreases lines.len(),
{
    if lines.len() == 0 {
        empty_report()
    } else {
        reported(reported_by(lines.drop_last()), lines.last())
    }
}

fn read_count(value: &[char]) -> (count: usize)
    ensures
        count == count_of(value@),
{
    match parse_unsigned(value, 10, usize::MAX as u64) {
        Some(n) => n as usize,
        None => 0,
    }
}

fn read_report_line(report: Ring0, raw: &[char]) -> (after: Ring0)
    ensures
        after@ == reported(report@, raw@),
{
    let mut r: Ring0 = report;
    match split_once(trim(raw, Trim::Space), '=') {
        None => r,
        Some((key, value)) => {
            if same(key, "crypto_payload_bytes") {
                r.payload_bytes = read_count(value);
            } else if same(key, "crypto_rounds") {
                r.rounds = read_count(value);
            } else if same(key, "crypto") {
                match split_last(value, ',') {
                    Some((name, cycles)) => match parse_unsigned(
                        trim(cycles, Trim::Space),
                        10,
                        u64::MAX,
                    ) {
                        Some(n) => {
                            let ghost before = r.timings@;
                            let t: (String, u64) = (string_of(name), n);
                            r.timings.push(t);
                            assert(timings_view(r.timings@) =~= timings_view(before).push(
                                (t.0@, t.1),
                            ));
                        },
                        None => {},
                    },
                    None => {},
                }
            }
            r
        },
    }
}

/// Reads the crypto lines out of the module's `key=value` report.
pub fn parse_ring0(text: &str) -> (report: Ring0)
    ensures
        report@ == reported_by(crate::text::text_lines(text@)),
{
    let chars: Vec<char> = chars_of(text);
    let parts: Vec<&[char]> = lines(chars.as_slice());
    let ghost all = crate::text::text_lines(text@);
    let mut report: Ring0 = Ring0::default();
    let mut i: usize = 0;
    assert(all.take(0) =~= Seq::empty());
    while i < parts.len()
        invariant
            i <= parts.len(),
            all == crate::text::parts_view(parts@),
            report@ == reported_by(all.take(i as int)),
        decreases parts.len() - i,
    {
        assert(all.take(i + 1).drop_last() =~= all.take(i as int));
        assert(all.take(i + 1).last() == parts@[i as int]@);
        report = read_report_line(report, parts[i]);
        i = i + 1;
    }
    assert(all.take(i as int) =~= all);
    report
}

/// The oldest module format that publishes crypto timings.
pub const MINIMUM_FORMAT: u32 = 2;

/// The first report that holds a timing, of the files the module may publish
/// under.
pub open spec fn first_report(texts: Seq<Option<String>>) -> Option<Ring0View>
    decreases texts.len(),
{
    if texts.len() == 0 {
        None
    } else {
        match texts[0] {
            Some(text) => {
                let r = reported_by(crate::text::text_lines(text@));
                if r.timings.len() > 0 {
                    Some(r)
                } else {
                    first_report(texts.skip(1))
                }
            },
            None => first_report(texts.skip(1)),
        }
    }
}

/// What an optional report says.
pub open spec fn report_view(report: Option<Ring0>) -> Option<Ring0View> {
    match report {
        Some(r) => Some(r@),
        None => None,
    }
}

impl Ring0 {
    /// The module's report, from the files it may publish under, each `None`
    /// where it cannot be read. No module is the ordinary case, not an error.
    pub fn read(texts: &Vec<Option<String>>) -> (report: Option<Ring0>)
        ensures
            report_view(report) == first_report(texts@),
    {
        let mut i: usize = 0;
        assert(texts@.skip(0) =~= texts@);
        while i < texts.len()
            invariant
                i <= texts.len(),
                first_report(texts@) == first_report(texts@.skip(i as int)),
            decreases texts.len() - i,
        {
            assert(texts@.skip(i as int)[0] == texts@[i as int]);
            assert(texts@.skip(i as int).skip(1) =~= texts@.skip(i + 1));
            match &texts[i] {
                Some(text) => {
                    let report: Ring0 = parse_ring0(text.as_str());
                    assert(report@.timings.len() == report.timings@.len());
                    if report.timings.len() > 0 {
                        return Some(report);
                    }
                },
                None => {},
            }
            i = i + 1;
        }
        None
    }
}

} // verus!
