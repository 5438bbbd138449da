//! What the firmware's ACPI tables say is on a machine.
//!
//! A device that does not show up could be a machine without one, a table
//! that would not parse, or a walk that gave up; the report tells these apart.
use crate::bytes::utf8_text;
use crate::text::{push_decimal, push_hex_0x, push_text, push_two_digits};
use vstd::prelude::*;
use vstd::utf8::*;

verus! {

/// Bytes as text, or what stands for bytes that are none.
pub open spec fn shown(bytes: Seq<u8>, otherwise: Seq<char>) -> Seq<char> {
    if valid_utf8(bytes) {
        decode_utf8(bytes)
    } else {
        otherwise
    }
}

fn push_bytes(out: &mut String, bytes: &[u8], otherwise: &str)
    ensures
        final(out)@ == old(out)@ + shown(bytes@, otherwise@),
{
    match utf8_text(bytes) {
        Some(text) => {
            proof {
                encode_utf8_decode_utf8(text@);
            }
            push_text(out, text);
        },
        None => push_text(out, otherwise),
    }
}

/// `out` with a label, a number and what stands behind it.
pub open spec fn with_number(out: Seq<char>, label: Seq<char>, n: int, rest: Seq<char>) -> Seq<
    char,
> {
    out + label + crate::text::decimal(n) + rest
}

fn push_number(out: &mut String, label: &str, n: u64, rest: &str)
    ensures
        final(out)@ == with_number(old(out)@, label@, n as int, rest@),
{
    push_text(out, label);
    push_decimal(out, n);
    push_text(out, rest);
}

/// `out` with a label, a number in hexadecimal and what stands behind it.
pub open spec fn with_hex(out: Seq<char>, label: Seq<char>, n: int, rest: Seq<char>) -> Seq<char> {
    out + label + crate::text::hex_0x(n) + rest
}

fn push_hex_line(out: &mut String, label: &str, n: u64, rest: &str)
    ensures
        final(out)@ == with_hex(old(out)@, label@, n as int, rest@),
{
    push_text(out, label);
    push_hex_0x(out, n);
    push_text(out, rest);
}

/// `out` with a label, a path and what stands behind it.
pub open spec fn with_path(out: Seq<char>, label: Seq<char>, path: Seq<u8>, rest: Seq<char>) -> Seq<
    char,
> {
    out + label + shown(path, "?"@) + rest
}

fn push_path(out: &mut String, label: &str, path: &Vec<u8>, rest: &str)
    ensures
        final(out)@ == with_path(old(out)@, label@, path@, rest@),
{
    push_text(out, label);
    push_bytes(out, path.as_slice(), "?");
    push_text(out, rest);
}

// ---------------------------------------------------------------------------
// What was found
// ---------------------------------------------------------------------------

/// How a pin's pad was found.
#[derive(Debug, Clone, Copy, PartialEq, Eq, Structural)]
pub enum Readiness {
    /// A table maps the pin, and the hardware agrees.
    Table,
    /// A table maps the pin, and the hardware does not agree.
    Disagrees,
    /// No table: this many pads are watched.
    Calibrating { watching: usize },
}

/// The windows of a GPIO controller.
#[derive(Debug)]
pub struct GpioWindows {
    pub communities: usize,
    pub platform: Option<String>,
    pub readiness: Readiness,
}

/// The pin a device declared.
#[derive(Debug)]
pub struct GpioPin {
    pub pin: u16,
    /// The controller's path, as bytes.
    pub controller: Vec<u8>,
    pub windows: Option<GpioWindows>,
}

/// The bus controller a device names.
#[derive(Debug)]
pub struct BusController {
    /// Its path, as bytes.
    pub path: Vec<u8>,
    /// The address the main table declares for it.
    pub dsdt: Option<u64>,
    /// The address each secondary table declares for it.
    pub ssdts: Vec<Option<u64>>,
}

/// The resources of an I2C device.
#[derive(Debug)]
pub struct I2cResources {
    pub slave: u16,
    pub speed: u32,
    pub descriptor: Option<u16>,
    /// Whether they come from the device's own method rather than from the
    /// buffers it declares.
    pub evaluated: bool,
    pub controller: BusController,
    pub pin: Option<GpioPin>,
}

/// An I2C input device of the main table.
#[derive(Debug)]
pub struct I2cHid {
    /// Its path, as bytes.
    pub path: Vec<u8>,
    pub hid: Option<String>,
    pub resources: Option<I2cResources>,
}

/// A device of a table: whether it has either kind of identifier.
#[derive(Debug, Clone, Copy, PartialEq, Eq, Structural)]
pub struct DeviceIds {
    pub hid: bool,
    pub cid: bool,
}

/// A secondary table, and how many devices it declares where it could be
/// walked.
#[derive(Debug, Clone, Copy, PartialEq, Eq, Structural)]
pub struct Ssdt {
    pub bytes: usize,
    pub devices: u32,
}

/// What walking the tables gave.
#[derive(Debug)]
pub struct NamespaceFacts {
    pub devices: Vec<DeviceIds>,
    pub ssdts: Vec<Ssdt>,
    /// Every table's signature.
    pub tables: Vec<[u8; 4]>,
    pub i2c_hid: Option<I2cHid>,
    /// The path of an I2C input device that a secondary table declares, where
    /// the main one declares none.
    pub i2c_hid_elsewhere: Option<Vec<u8>>,
}

/// The main table.
#[derive(Debug)]
pub enum Dsdt {
    /// There is none, or its checksum did not verify.
    Missing,
    /// Its length field does not fit it.
    Misfit { bytes: usize },
    Walked { bytes: usize, facts: NamespaceFacts },
}

/// Everything that is reported of the tables.
#[derive(Debug)]
pub struct AcpiFacts {
    /// Where the root table came from.
    pub source: String,
    pub xsdt: bool,
    /// Whether looking where a BIOS leaves it finds the root pointer.
    pub legacy_scan: bool,
    pub dsdt: Dsdt,
}

impl AcpiFacts {
    /// What the secondary tables hold can be counted.
    pub open spec fn well_formed(self) -> bool {
        self.dsdt matches Dsdt::Walked { bytes, facts } ==> countable(facts.ssdts@)
    }
}

// ---------------------------------------------------------------------------
// Counting
// ---------------------------------------------------------------------------

/// How many of some devices have an identifier.
pub open spec fn identified(devices: Seq<DeviceIds>) -> int
    decreases devices.len(),
{
    if devices.len() == 0 {
        0
    } else {
        identified(devices.drop_last()) + (if devices.last().hid || devices.last().cid {
            1int
        } else {
            0
        })
    }
}

fn count_identified(devices: &Vec<DeviceIds>) -> (n: u64)
    ensures
        n == identified(devices@),
{
    let mut n: u64 = 0;
    let mut i: usize = 0;
    assert(devices@.take(0) =~= Seq::empty());
    while i < devices.len()
        invariant
            i <= devices.len(),
            n <= i,
            n == identified(devices@.take(i as int)),
        decreases devices.len() - i,
    {
        assert(devices@.take(i + 1).drop_last() =~= devices@.take(i as int));
        if devices[i].hid || devices[i].cid {
            n = n + 1;
        }
        i = i + 1;
    }
    assert(devices@.take(i as int) =~= devices@);
    n
}

/// The bytes and the devices of some secondary tables.
pub open spec fn totals(ssdts: Seq<Ssdt>) -> (int, int)
    decreases ssdts.len(),
{
    if ssdts.len() == 0 {
        (0, 0)
    } else {
        let before = totals(ssdts.drop_last());
        (before.0 + ssdts.last().bytes, before.1 + ssdts.last().devices)
    }
}

/// Whether the totals of some secondary tables fit where they are counted.
pub open spec fn countable(ssdts: Seq<Ssdt>) -> bool {
    totals(ssdts).0 <= u64::MAX && totals(ssdts).1 <= u64::MAX
}

proof fn lemma_totals_grow(ssdts: Seq<Ssdt>, k: int)
    requires
        0 <= k <= ssdts.len(),
    ensures
        0 <= totals(ssdts.take(k)).0 <= totals(ssdts).0,
        0 <= totals(ssdts.take(k)).1 <= totals(ssdts).1,
    decreases ssdts.len(),
{
    if k == ssdts.len() {
        assert(ssdts.take(k) =~= ssdts);
        if k > 0 {
            lemma_totals_grow(ssdts.drop_last(), k - 1);
        }
    } else {
        lemma_totals_grow(ssdts.drop_last(), k);
        assert(ssdts.drop_last().take(k) =~= ssdts.take(k));
    }
}

fn count_ssdts(ssdts: &Vec<Ssdt>) -> (sums: (u64, u64))
    requires
        countable(ssdts@),
    ensures
        sums.0 == totals(ssdts@).0,
        sums.1 == totals(ssdts@).1,
{
    let mut bytes: u64 = 0;
    let mut devices: u64 = 0;
    let mut i: usize = 0;
    assert(ssdts@.take(0) =~= Seq::empty());
    while i < ssdts.len()
        invariant
            i <= ssdts.len(),
            countable(ssdts@),
            bytes == totals(ssdts@.take(i as int)).0,
            devices == totals(ssdts@.take(i as int)).1,
        decreases ssdts.len() - i,
    {
        proof {
            lemma_totals_grow(ssdts@, i + 1);
            assert(ssdts@.take(i + 1).drop_last() =~= ssdts@.take(i as int));
        }
        bytes = bytes + ssdts[i].bytes as u64;
        devices = devices + ssdts[i].devices as u64;
        i = i + 1;
    }
    assert(ssdts@.take(i as int) =~= ssdts@);
    (bytes, devices)
}

/// How many signatures fit on the line that lists them.
pub const TABLES_SHOWN: usize = 32;

/// Some signatures, separated by blanks.
pub open spec fn signatures(tables: Seq<[u8; 4]>) -> Seq<char>
    decreases tables.len(),
{
    if tables.len() == 0 {
        Seq::empty()
    } else {
        let before = signatures(tables.drop_last());
        (if tables.len() > 1 {
            before + " "@
        } else {
            before
        }) + shown(tables.last()@, "????"@)
    }
}

/// The signatures a report lists: as many as fit.
pub open spec fn inventory(tables: Seq<[u8; 4]>) -> Seq<char> {
    signatures(tables.take(crate::num::min_int(tables.len() as int, 32)))
}

fn push_inventory(out: &mut String, tables: &Vec<[u8; 4]>)
    ensures
        final(out)@ == old(out)@ + inventory(tables@),
{
    let ghost head = out@;
    let n: usize = if tables.len() < TABLES_SHOWN {
        tables.len()
    } else {
        TABLES_SHOWN
    };
    let mut i: usize = 0;
    assert(tables@.take(0) =~= Seq::empty());
    assert(out@ =~= head + Seq::<char>::empty());
    while i < n
        invariant
            i <= n <= tables.len(),
            out@ == head + signatures(tables@.take(i as int)),
        decreases n - i,
    {
        let ghost before = signatures(tables@.take(i as int));
        assert(tables@.take(i + 1).drop_last() =~= tables@.take(i as int));
        assert(tables@.take(i + 1).last() == tables@[i as int]);
        if i > 0 {
            push_text(out, " ");
        }
        push_bytes(out, tables[i].as_slice(), "????");
        assert(out@ =~= head + signatures(tables@.take(i + 1)));
        i = i + 1;
    }
}

// ---------------------------------------------------------------------------
// Lines
// ---------------------------------------------------------------------------

/// The first secondary table, counted from one, that declares an address, and
/// the address.
pub open spec fn declared_in(ssdts: Seq<Option<u64>>, from: int) -> Option<(int, u64)>
    decreases ssdts.len() - from,
{
    if from < 0 || from >= ssdts.len() {
        None
    } else {
        match ssdts[from] {
            Some(address) => Some((from + 1, address)),
            None => declared_in(ssdts, from + 1),
        }
    }
}

fn find_declared(ssdts: &Vec<Option<u64>>) -> (found: Option<(usize, u64)>)
    ensures
        match found {
            Some((which, address)) => declared_in(ssdts@, 0) == Some((which as int, address)),
            None => declared_in(ssdts@, 0) is None,
        },
{
    let mut i: usize = 0;
    while i < ssdts.len()
        invariant
            i <= ssdts.len(),
            declared_in(ssdts@, 0) == declared_in(ssdts@, i as int),
        decreases ssdts.len() - i,
    {
        match ssdts[i] {
            Some(address) => {
                return Some((i + 1, address));
            },
            None => {},
        }
        i = i + 1;
    }
    None
}

/// The line on a controller's address: the device and function it encodes,
/// and the kind of table it comes from.
pub open spec fn with_address(out: Seq<char>, address: u64, source: Seq<char>) -> Seq<char> {
    with_hex(out, "    _ADR         : "@, address as int, " -> "@) + crate::text::two_digits(
        (address / 0x1_0000 % 0x20) as int,
    ) + "."@ + crate::text::decimal((address % 8) as int) + " ("@ + source + ")\n"@
}

fn push_address(out: &mut String, address: u64, source: &str)
    ensures
        final(out)@ == with_address(old(out)@, address, source@),
{
    push_hex_line(out, "    _ADR         : ", address, " -> ");
    push_two_digits(out, address / 0x1_0000 % 0x20);
    push_text(out, ".");
    push_decimal(out, address % 8);
    push_text(out, " (");
    push_text(out, source);
    push_text(out, ")\n");
}

/// The lines on a bus controller. The device may be declared in one table and
/// the bus it sits on in another, so it is said which.
pub open spec fn with_controller(out: Seq<char>, c: BusController) -> Seq<char> {
    let named = with_path(out, "    controller   : "@, c.path@, "\n"@);
    match c.dsdt {
        Some(address) => with_address(named, address, "dsdt"@),
        None => match declared_in(c.ssdts@, 0) {
            Some((which, address)) => with_address(
                with_number(named, "    found in     : ssdt #"@, which, "\n"@),
                address,
                "ssdt"@,
            ),
            None => named + "    _ADR         : no table declares this controller with one\n"@,
        },
    }
}

/// Writes the lines on a bus controller.
pub fn report_controller(out: &mut String, c: &BusController)
    ensures
        final(out)@ == with_controller(old(out)@, *c),
{
    push_path(out, "    controller   : ", &c.path, "\n");
    match c.dsdt {
        Some(address) => push_address(out, address, "dsdt"),
        None => match find_declared(&c.ssdts) {
            Some((which, address)) => {
                push_number(out, "    found in     : ssdt #", which as u64, "\n");
                push_address(out, address, "ssdt");
            },
            None => push_text(
                out,
                "    _ADR         : no table declares this controller with one\n",
            ),
        },
    }
}

/// The lines on a declared pin: whether it can be read, and by which route.
pub open spec fn with_pin(out: Seq<char>, pin: GpioPin) -> Seq<char> {
    let named = with_path(
        with_number(out, "    gpio pin     : "@, pin.pin as int, "\n"@),
        "    gpio ctrl    : "@,
        pin.controller@,
        "\n"@,
    );
    match pin.windows {
        None => named + "    gpio windows : none usable; the pin gate will poll blind\n"@,
        Some(w) => {
            let windows = with_number(
                named,
                "    gpio windows : "@,
                w.communities as int,
                " communit"@,
            ) + (if w.communities == 1 {
                "y"@
            } else {
                "ies"@
            }) + ", part "@ + (match w.platform {
                Some(name) => name@,
                None => "unrecognised"@,
            }) + "\n"@;
            match w.readiness {
                Readiness::Table => with_number(
                    windows,
                    "    readiness    : gated by pin "@,
                    pin.pin as int,
                    " (table)\n"@,
                ),
                Readiness::Disagrees => windows
                    + "    readiness    : table maps the pin, hardware disagrees; will calibrate\n"@,
                Readiness::Calibrating { watching } => with_number(
                    windows,
                    "    readiness    : no table; calibrating against "@,
                    watching as int,
                    " candidate pads\n"@,
                ),
            }
        },
    }
}

/// Writes the lines on a declared pin.
pub fn report_gpio(out: &mut String, pin: &GpioPin)
    ensures
        final(out)@ == with_pin(old(out)@, *pin),
{
    push_number(out, "    gpio pin     : ", pin.pin as u64, "\n");
    push_path(out, "    gpio ctrl    : ", &pin.controller, "\n");
    match &pin.windows {
        None => push_text(out, "    gpio windows : none usable; the pin gate will poll blind\n"),
        Some(w) => {
            push_number(out, "    gpio windows : ", w.communities as u64, " communit");
            push_text(
                out,
                if w.communities == 1 {
                    "y"
                } else {
                    "ies"
                },
            );
            push_text(out, ", part ");
            push_text(
                out,
                match &w.platform {
                    Some(name) => name.as_str(),
                    None => "unrecognised",
                },
            );
            push_text(out, "\n");
            match w.readiness {
                Readiness::Table => push_number(
                    out,
                    "    readiness    : gated by pin ",
                    pin.pin as u64,
                    " (table)\n",
                ),
                Readiness::Disagrees => push_text(
                    out,
                    "    readiness    : table maps the pin, hardware disagrees; will calibrate\n",
                ),
                Readiness::Calibrating { watching } => push_number(
                    out,
                    "    readiness    : no table; calibrating against ",
                    watching as u64,
                    " candidate pads\n",
                ),
            }
        },
    }
}

/// The lines on the resources of an I2C device.
pub open spec fn with_resources(out: Seq<char>, r: I2cResources) -> Seq<char> {
    let first = with_number(
        with_hex(out, "    slave        : "@, r.slave as int, "\n"@),
        "    bus speed    : "@,
        r.speed as int,
        " Hz\n"@,
    );
    let second = match r.descriptor {
        Some(register) => with_hex(first, "    descriptor   : "@, register as int, "\n"@),
        None => first
            + "    descriptor   : _DSM not evaluable; the driver will probe for it\n"@,
    };
    let third = second + (if r.evaluated {
        "    resources    : from _CRS\n"@
    } else {
        "    resources    : _CRS not evaluable; read from the device's declared buffers\n"@
    });
    let fourth = with_controller(third, r.controller);
    match r.pin {
        Some(pin) => with_pin(fourth, pin),
        None => fourth + "    gpio pin     : none declared\n"@,
    }
}

fn push_resources(out: &mut String, r: &I2cResources)
    ensures
        final(out)@ == with_resources(old(out)@, *r),
{
    push_hex_line(out, "    slave        : ", r.slave as u64, "\n");
    push_number(out, "    bus speed    : ", r.speed as u64, " Hz\n");
    match r.descriptor {
        Some(register) => push_hex_line(out, "    descriptor   : ", register as u64, "\n"),
        None => push_text(
            out,
            "    descriptor   : _DSM not evaluable; the driver will probe for it\n",
        ),
    }
    push_text(
        out,
        if r.evaluated {
            "    resources    : from _CRS\n"
        } else {
            "    resources    : _CRS not evaluable; read from the device's declared buffers\n"
        },
    );
    report_controller(out, &r.controller);
    match &r.pin {
        Some(pin) => report_gpio(out, pin),
        None => push_text(out, "    gpio pin     : none declared\n"),
    }
}

/// The lines on the I2C input device.
pub open spec fn with_i2c_hid(out: Seq<char>, facts: NamespaceFacts) -> Seq<char> {
    match facts.i2c_hid {
        Some(device) => {
            let named = with_path(out, "  i2c-hid        : "@, device.path@, "\n"@);
            let identified = match device.hid {
                Some(hid) => named + "    _HID         : "@ + hid@ + "\n"@,
                None => named,
            };
            match device.resources {
                Some(r) => with_resources(identified, r),
                None => identified
                    + "    _CRS/_DSM    : not readable by this interpreter\n"@,
            }
        },
        None => (match facts.i2c_hid_elsewhere {
            Some(path) => with_path(
                out,
                "  i2c-hid        : "@,
                path@,
                " (in an SSDT, not the DSDT)\n"@,
            ),
            None => out,
        }) + "  i2c-hid        : no PNP0C50 device on this machine\n"@,
    }
}

fn push_i2c_hid(out: &mut String, facts: &NamespaceFacts)
    ensures
        final(out)@ == with_i2c_hid(old(out)@, *facts),
{
    match &facts.i2c_hid {
        Some(device) => {
            push_path(out, "  i2c-hid        : ", &device.path, "\n");
            match &device.hid {
                Some(hid) => {
                    push_text(out, "    _HID         : ");
                    push_text(out, hid.as_str());
                    push_text(out, "\n");
                },
                None => {},
            }
            match &device.resources {
                Some(r) => push_resources(out, r),
                None => push_text(
                    out,
                    "    _CRS/_DSM    : not readable by this interpreter\n",
                ),
            }
        },
        None => {
            match &facts.i2c_hid_elsewhere {
                Some(path) => push_path(
                    out,
                    "  i2c-hid        : ",
                    path,
                    " (in an SSDT, not the DSDT)\n",
                ),
                None => {},
            }
            push_text(out, "  i2c-hid        : no PNP0C50 device on this machine\n");
        },
    }
}

/// The lines on what walking the tables gave.
pub open spec fn with_namespace(out: Seq<char>, facts: NamespaceFacts) -> Seq<char> {
    let first = with_number(
        with_number(out, "  devices        : "@, facts.devices@.len() as int, " ("@),
        ""@,
        identified(facts.devices@),
        " with a _HID or _CID)\n"@,
    );
    let sums = totals(facts.ssdts@);
    let second = with_number(
        with_number(
            with_number(first, "  ssdts          : "@, facts.ssdts@.len() as int, " ("@),
            ""@,
            sums.0,
            " bytes, "@,
        ),
        ""@,
        sums.1,
        " more devices)\n"@,
    );
    with_i2c_hid(
        second + "  tables         : "@ + inventory(facts.tables@) + "\n"@,
        facts,
    )
}

fn push_namespace(out: &mut String, facts: &NamespaceFacts)
    requires
        countable(facts.ssdts@),
    ensures
        final(out)@ == with_namespace(old(out)@, *facts),
{
    push_number(out, "  devices        : ", facts.devices.len() as u64, " (");
    push_number(out, "", count_identified(&facts.devices), " with a _HID or _CID)\n");
    let (bytes, devices): (u64, u64) = count_ssdts(&facts.ssdts);
    push_number(out, "  ssdts          : ", facts.ssdts.len() as u64, " (");
    push_number(out, "", bytes, " bytes, ");
    push_number(out, "", devices, " more devices)\n");
    push_text(out, "  tables         : ");
    push_inventory(out, &facts.tables);
    push_text(out, "\n");
    push_i2c_hid(out, facts);
}

/// The part of the report on the firmware's tables.
pub open spec fn acpi_text(out: Seq<char>, facts: AcpiFacts) -> Seq<char> {
    let head = out + "== ACPI namespace ==\n  root table     : "@ + facts.source@ + (if facts.xsdt {
        " (xsdt)\n"@
    } else {
        " (rsdt)\n"@
    }) + (if facts.legacy_scan {
        "  legacy scan    : finds an RSDP (BIOS boot)\n"@
    } else {
        "  legacy scan    : finds nothing (UEFI boot: only the loader knows)\n"@
    });
    (match facts.dsdt {
        Dsdt::Missing => head + "  no DSDT, or one whose checksum did not verify\n"@,
        Dsdt::Misfit { bytes } => with_number(
            head,
            "  dsdt           : "@,
            bytes as int,
            " bytes\n  the table's length field does not fit the table\n"@,
        ),
        Dsdt::Walked { bytes, facts } => with_namespace(
            with_number(head, "  dsdt           : "@, bytes as int, " bytes\n"@),
            facts,
        ),
    }) + "\n"@
}

/// Writes the part of the report on the firmware's tables.
pub fn report_acpi_namespace(out: &mut String, facts: &AcpiFacts)
    requires
        facts.well_formed(),
    ensures
        final(out)@ == acpi_text(old(out)@, *facts),
{
    push_text(out, "== ACPI namespace ==\n  root table     : ");
    push_text(out, facts.source.as_str());
    push_text(
        out,
        if facts.xsdt {
            " (xsdt)\n"
        } else {
            " (rsdt)\n"
        },
    );
    push_text(
        out,
        if facts.legacy_scan {
            "  legacy scan    : finds an RSDP (BIOS boot)\n"
        } else {
            "  legacy scan    : finds nothing (UEFI boot: only the loader knows)\n"
        },
    );
    match &facts.dsdt {
        Dsdt::Missing => push_text(out, "  no DSDT, or one whose checksum did not verify\n"),
        Dsdt::Misfit { bytes } => push_number(
            out,
            "  dsdt           : ",
            *bytes as u64,
            " bytes\n  the table's length field does not fit the table\n",
        ),
        Dsdt::Walked { bytes, facts } => {
            push_number(out, "  dsdt           : ", *bytes as u64, " bytes\n");
            push_namespace(out, facts);
        },
    }
    push_text(out, "\n");
}

} // verus!
