//! The verified core of the `/sys`-fs GPIO backend.
//!
//! The kernel exposes each pin as a small tree of pseudo-files: writing a
//! pin number to `export` makes `gpioN/` appear, `gpioN/direction`,
//! `gpioN/value` and `gpioN/edge` configure and carry the signal, and
//! writing the number to `unexport` releases the pin again. This module
//! holds everything about that protocol which is pure computation: the
//! wire encodings, the paths, and the exact sequence of kernel requests a
//! pin handle must issue over its lifetime. An unverified shell performs
//! the actual filesystem operations.

use vstd::prelude::*;

use crate::GpioEdge;
use crate::GpioValue;

pub use crate::GpioError;
pub use crate::GpioResult;

verus! {

/// The configured transfer direction of a pin.
#[derive(Debug, Copy, Clone, Eq, PartialEq)]
pub enum GpioDirection {
    /// The pin is sampled; its value channel is opened for reading.
    Input,
    /// The pin is driven; its value channel is opened for writing.
    Output,
}

// ---------------------------------------------------------------------------
// Value codec: one wire byte per logical level.
// ---------------------------------------------------------------------------

/// The single wire byte of a logical value: `'0'` for `Low`, `'1'` for `High`.
pub open spec fn spec_wire_byte(val: GpioValue) -> u8 {
    match val {
        GpioValue::Low => 48u8,
        GpioValue::High => 49u8,
    }
}

/// Decoding of one wire byte: `'0'` and `'1'` are the two levels, every
/// other byte is a protocol violation carrying the offending byte.
pub open spec fn spec_parse_wire_byte(b: u8) -> Result<GpioValue, GpioError> {
    if b == 48u8 {
        Ok(GpioValue::Low)
    } else if b == 49u8 {
        Ok(GpioValue::High)
    } else {
        Err(GpioError::InvalidValueByte(b))
    }
}

/// Encode a logical value as the byte written to a pin's value channel.
pub fn wire_byte(val: GpioValue) -> (r: u8)
    ensures
        r == spec_wire_byte(val),
{
    match val {
        GpioValue::Low => 48u8,
        GpioValue::High => 49u8,
    }
}

/// Decode the first byte read from a pin's value channel. A byte other
/// than `'0'` or `'1'` yields `InvalidValueByte` with that byte, never a
/// coerced level.
pub fn parse_wire_byte(b: u8) -> (r: GpioResult<GpioValue>)
    ensures
        r == spec_parse_wire_byte(b),
{
    if b == 48u8 {
        Ok(GpioValue::Low)
    } else if b == 49u8 {
        Ok(GpioValue::High)
    } else {
        Err(GpioError::InvalidValueByte(b))
    }
}

/// Encoding a level and decoding the byte yields the level again.
pub proof fn lemma_wire_byte_round_trip(val: GpioValue)
    ensures
        spec_parse_wire_byte(spec_wire_byte(val)) == Ok::<GpioValue, GpioError>(val),
{
}

// ---------------------------------------------------------------------------
// Wire strings for the direction and edge control files.
// ---------------------------------------------------------------------------

/// The string written to `gpioN/direction`.
pub open spec fn spec_direction_wire(direction: GpioDirection) -> Seq<char> {
    match direction {
        GpioDirection::Input => "in"@,
        GpioDirection::Output => "out"@,
    }
}

/// The string written to `gpioN/edge`.
pub open spec fn spec_edge_wire(edge: GpioEdge) -> Seq<char> {
    match edge {
        GpioEdge::NoInterrupt => "none"@,
        GpioEdge::Rising => "rising"@,
        GpioEdge::Falling => "falling"@,
        GpioEdge::Both => "both"@,
    }
}

/// The content of a pin's direction control file for the given direction.
pub fn direction_wire(direction: GpioDirection) -> (r: &'static str)
    ensures
        r@ == spec_direction_wire(direction),
{
    match direction {
        GpioDirection::Input => "in",
        GpioDirection::Output => "out",
    }
}

/// The content of a pin's edge control file for the given policy.
pub fn edge_wire(edge: GpioEdge) -> (r: &'static str)
    ensures
        r@ == spec_edge_wire(edge),
{
    match edge {
        GpioEdge::NoInterrupt => "none",
        GpioEdge::Rising => "rising",
        GpioEdge::Falling => "falling",
        GpioEdge::Both => "both",
    }
}

// ---------------------------------------------------------------------------
// Decimal rendering of pin numbers and the sysfs paths built from them.
// ---------------------------------------------------------------------------

/// The digit character for one decimal digit value.
pub open spec fn spec_digit_char(d: int) -> char {
    if d == 0 {
        '0'
    } else if d == 1 {
        '1'
    } else if d == 2 {
        '2'
    } else if d == 3 {
        '3'
    } else if d == 4 {
        '4'
    } else if d == 5 {
        '5'
    } else if d == 6 {
        '6'
    } else if d == 7 {
        '7'
    } else if d == 8 {
        '8'
    } else {
        '9'
    }
}

/// The decimal digit characters of a non-negative number, most significant
/// first, without leading zeros (zero itself is the single digit `0`).
pub open spec fn spec_decimal(n: int) -> Seq<char>
    decreases n,
{
    if n < 10 {
        seq![spec_digit_char(n)]
    } else {
        spec_decimal(n / 10).push(spec_digit_char(n % 10))
    }
}

/// The digit character of one decimal digit value, as a one-character string.
fn digit_str(d: u16) -> (r: &'static str)
    requires
        d < 10,
    ensures
        r@ == seq![spec_digit_char(d as int)],
{
    proof {
        reveal_strlit("0");
        reveal_strlit("1");
        reveal_strlit("2");
        reveal_strlit("3");
        reveal_strlit("4");
        reveal_strlit("5");
        reveal_strlit("6");
        reveal_strlit("7");
        reveal_strlit("8");
        reveal_strlit("9");
    }
    let r: &'static str = if d == 0 {
        "0"
    } else if d == 1 {
        "1"
    } else if d == 2 {
        "2"
    } else if d == 3 {
        "3"
    } else if d == 4 {
        "4"
    } else if d == 5 {
        "5"
    } else if d == 6 {
        "6"
    } else if d == 7 {
        "7"
    } else if d == 8 {
        "8"
    } else {
        "9"
    };
    proof {
        assert(r@ =~= seq![spec_digit_char(d as int)]);
    }
    r
}

/// Render a pin number in decimal, as written to the `export` and
/// `unexport` control files.
pub fn decimal_string(n: u16) -> (r: String)
    ensures
        r@ == spec_decimal(n as int),
    decreases n,
{
    if n < 10 {
        digit_str(n).to_owned()
    } else {
        let mut prefix = decimal_string(n / 10);
        prefix.append(digit_str(n % 10));
        prefix
    }
}

/// The path of the control file that makes a pin visible.
pub fn export_path() -> (r: String)
    ensures
        r@ == "/sys/class/gpio/export"@,
{
    "/sys/class/gpio/export".to_owned()
}

/// The path of the control file that releases a pin.
pub fn unexport_path() -> (r: String)
    ensures
        r@ == "/sys/class/gpio/unexport"@,
{
    "/sys/class/gpio/unexport".to_owned()
}

/// The directory the kernel creates for an exported pin.
pub open spec fn spec_pin_dir(n: u16) -> Seq<char> {
    "/sys/class/gpio/gpio"@ + spec_decimal(n as int)
}

/// The directory of an exported pin, e.g. `/sys/class/gpio/gpio23`.
pub fn pin_dir_path(n: u16) -> (r: String)
    ensures
        r@ == spec_pin_dir(n),
{
    let mut r = "/sys/class/gpio/gpio".to_owned();
    r.append(decimal_string(n).as_str());
    r
}

/// The polarity control file of a pin.
pub fn active_low_path(n: u16) -> (r: String)
    ensures
        r@ == spec_pin_dir(n) + "/active_low"@,
{
    let mut r = pin_dir_path(n);
    r.append("/active_low");
    r
}

/// The direction control file of a pin.
pub fn direction_path(n: u16) -> (r: String)
    ensures
        r@ == spec_pin_dir(n) + "/direction"@,
{
    let mut r = pin_dir_path(n);
    r.append("/direction");
    r
}

/// The value channel of a pin.
pub fn value_path(n: u16) -> (r: String)
    ensures
        r@ == spec_pin_dir(n) + "/value"@,
{
    let mut r = pin_dir_path(n);
    r.append("/value");
    r
}

/// The edge policy control file of a pin.
pub fn edge_path(n: u16) -> (r: String)
    ensures
        r@ == spec_pin_dir(n) + "/edge"@,
{
    let mut r = pin_dir_path(n);
    r.append("/edge");
    r
}

// ---------------------------------------------------------------------------
// The pin lifecycle: which kernel requests a handle issues, and when.
// ---------------------------------------------------------------------------

/// One request against the kernel's GPIO namespace. Every request names
/// the pin it concerns; the write requests carry what is written, the
/// open request says in which mode the value channel is opened.
#[derive(Debug, Copy, Clone, Eq, PartialEq)]
pub enum PinRequest {
    /// Write the pin number to the `export` control file.
    WriteExport(u16),
    /// Write `"0"` to the pin's polarity control file, so that the codec's
    /// `Low`/`High` mapping is independent of the hardware wiring.
    WriteActiveLow(u16),
    /// Write the direction string to the pin's direction control file.
    WriteDirection(u16, GpioDirection),
    /// Open the pin's value channel: for reading when the direction is
    /// `Input`, for writing when it is `Output`.
    OpenValueChannel(u16, GpioDirection),
    /// Write the edge policy string to the pin's edge control file.
    WriteEdge(u16, GpioEdge),
    /// Write the pin number to the `unexport` control file.
    WriteUnexport(u16),
}

/// The pin a request concerns.
pub open spec fn spec_request_pin(r: PinRequest) -> u16 {
    match r {
        PinRequest::WriteExport(n) => n,
        PinRequest::WriteActiveLow(n) => n,
        PinRequest::WriteDirection(n, _) => n,
        PinRequest::OpenValueChannel(n, _) => n,
        PinRequest::WriteEdge(n, _) => n,
        PinRequest::WriteUnexport(n) => n,
    }
}

/// The path a request touches.
pub open spec fn spec_request_path(r: PinRequest) -> Seq<char> {
    match r {
        PinRequest::WriteExport(_) => "/sys/class/gpio/export"@,
        PinRequest::WriteActiveLow(n) => spec_pin_dir(n) + "/active_low"@,
        PinRequest::WriteDirection(n, _) => spec_pin_dir(n) + "/direction"@,
        PinRequest::OpenValueChannel(n, _) => spec_pin_dir(n) + "/value"@,
        PinRequest::WriteEdge(n, _) => spec_pin_dir(n) + "/edge"@,
        PinRequest::WriteUnexport(_) => "/sys/class/gpio/unexport"@,
    }
}

/// The content a write request carries; `None` for the open request,
/// which writes nothing. The unexport write is newline-terminated.
pub open spec fn spec_request_content(r: PinRequest) -> Option<Seq<char>> {
    match r {
        PinRequest::WriteExport(n) => Some(spec_decimal(n as int)),
        PinRequest::WriteActiveLow(_) => Some("0"@),
        PinRequest::WriteDirection(_, d) => Some(spec_direction_wire(d)),
        PinRequest::OpenValueChannel(_, _) => None,
        PinRequest::WriteEdge(_, e) => Some(spec_edge_wire(e)),
        PinRequest::WriteUnexport(n) => Some(spec_decimal(n as int) + "\n"@),
    }
}

impl PinRequest {
    /// The pin this request concerns.
    pub fn pin(&self) -> (r: u16)
        ensures
            r == spec_request_pin(*self),
    {
        match *self {
            PinRequest::WriteExport(n) => n,
            PinRequest::WriteActiveLow(n) => n,
            PinRequest::WriteDirection(n, _) => n,
            PinRequest::OpenValueChannel(n, _) => n,
            PinRequest::WriteEdge(n, _) => n,
            PinRequest::WriteUnexport(n) => n,
        }
    }

    /// The path this request touches.
    pub fn path(&self) -> (r: String)
        ensures
            r@ == spec_request_path(*self),
    {
        match *self {
            PinRequest::WriteExport(_) => export_path(),
            PinRequest::WriteActiveLow(n) => active_low_path(n),
            PinRequest::WriteDirection(n, _) => direction_path(n),
            PinRequest::OpenValueChannel(n, _) => value_path(n),
            PinRequest::WriteEdge(n, _) => edge_path(n),
            PinRequest::WriteUnexport(_) => unexport_path(),
        }
    }

    /// The content this request writes, or `None` for the open request.
    pub fn content(&self) -> (r: Option<String>)
        ensures
            match spec_request_content(*self) {
                Some(s) => r matches Some(c) && c@ == s,
                None => r is None,
            },
    {
        match *self {
            PinRequest::WriteExport(n) => Some(decimal_string(n)),
            PinRequest::WriteActiveLow(_) => Some("0".to_owned()),
            PinRequest::WriteDirection(_, d) => Some(direction_wire(d).to_owned()),
            PinRequest::OpenValueChannel(_, _) => None,
            PinRequest::WriteEdge(_, e) => Some(edge_wire(e).to_owned()),
            PinRequest::WriteUnexport(n) => {
                let mut s = decimal_string(n);
                s.append("\n");
                Some(s)
            },
        }
    }
}

/// How many export writes a request log holds.
pub open spec fn exports_in(log: Seq<PinRequest>) -> int
    decreases log.len(),
{
    if log.len() == 0 {
        0
    } else {
        exports_in(log.drop_last()) + if log.last() is WriteExport {
            1int
        } else {
            0int
        }
    }
}

/// How many unexport writes a request log holds.
pub open spec fn unexports_in(log: Seq<PinRequest>) -> int
    decreases log.len(),
{
    if log.len() == 0 {
        0
    } else {
        unexports_in(log.drop_last()) + if log.last() is WriteUnexport {
            1int
        } else {
            0int
        }
    }
}

/// Appending one request raises the export and unexport counts by one
/// exactly when the request is of that kind.
pub proof fn lemma_counts_push(log: Seq<PinRequest>, r: PinRequest)
    ensures
        exports_in(log.push(r)) == exports_in(log) + if r is WriteExport {
            1int
        } else {
            0int
        },
        unexports_in(log.push(r)) == unexports_in(log) + if r is WriteUnexport {
            1int
        } else {
            0int
        },
{
    assert(log.push(r).drop_last() =~= log);
    assert(log.push(r).last() == r);
}

/// The requests an open call issues, in order: export the pin unless the
/// kernel already shows it, force the polarity, set the direction, open
/// the value channel.
pub open spec fn spec_open_requests(
    n: u16,
    direction: GpioDirection,
    already_exported: bool,
) -> Seq<PinRequest> {
    let tail = seq![
        PinRequest::WriteActiveLow(n),
        PinRequest::WriteDirection(n, direction),
        PinRequest::OpenValueChannel(n, direction),
    ];
    if already_exported {
        tail
    } else {
        seq![PinRequest::WriteExport(n)] + tail
    }
}

/// The requests a direction switch issues, in order: set the new
/// direction, reopen the value channel. The pin stays exported and its
/// polarity stays as configured at open.
pub open spec fn spec_switch_requests(n: u16, direction: GpioDirection) -> Seq<PinRequest> {
    seq![PinRequest::WriteDirection(n, direction), PinRequest::OpenValueChannel(n, direction)]
}

/// The abstract state of one pin handle's lifecycle.
pub ghost struct PinModel {
    /// The pin number: the handle's only durable identity.
    pub gpio_num: u16,
    /// The current transfer direction.
    pub direction: GpioDirection,
    /// The last edge policy requested for the pin.
    pub edge: GpioEdge,
    /// Whether opening this handle issued an export request (it does not
    /// when the kernel already showed the pin).
    pub exported_by_open: bool,
    /// Whether the handle has been torn down.
    pub torn_down: bool,
    /// Every kernel request this handle has issued, in order.
    pub log: Seq<PinRequest>,
}

/// The lifecycle of one pin handle: tracks the pin's number, direction
/// and edge policy, and produces the exact kernel requests each operation
/// must perform. The unverified shell executes each returned request
/// against the filesystem, in order, stopping at the first failure.
pub struct PinLifecycle {
    gpio_num: u16,
    direction: GpioDirection,
    edge: GpioEdge,
    exported_by_open: bool,
    torn_down: bool,
    log: Ghost<Seq<PinRequest>>,
}

impl View for PinLifecycle {
    type V = PinModel;

    closed spec fn view(&self) -> PinModel {
        PinModel {
            gpio_num: self.gpio_num,
            direction: self.direction,
            edge: self.edge,
            exported_by_open: self.exported_by_open,
            torn_down: self.torn_down,
            log: self.log@,
        }
    }
}

impl PinLifecycle {
    /// A lifecycle is well formed when its request log shows exactly one
    /// export if and only if opening exported the pin, exactly one
    /// unexport if and only if the handle was torn down, and no request
    /// for any other pin's resources.
    pub open spec fn wf(self) -> bool {
        &&& exports_in(self@.log) == if self@.exported_by_open {
            1int
        } else {
            0int
        }
        &&& unexports_in(self@.log) == if self@.torn_down {
            1int
        } else {
            0int
        }
        &&& forall|i: int|
            0 <= i < self@.log.len() ==> spec_request_pin(#[trigger] self@.log[i])
                == self@.gpio_num
    }

    /// Open a pin: records the handle's identity and direction and yields
    /// the requests the shell must perform, in order. `already_exported`
    /// says whether the kernel's namespace already shows the pin; the
    /// export step is skipped then, so that exporting is idempotent.
    pub fn open(gpio_num: u16, direction: GpioDirection, already_exported: bool) -> (r: (
        PinLifecycle,
        Vec<PinRequest>,
    ))
        ensures
            r.0.wf(),
            r.0@.gpio_num == gpio_num,
            r.0@.direction == direction,
            r.0@.edge == GpioEdge::NoInterrupt,
            r.0@.exported_by_open == !already_exported,
            !r.0@.torn_down,
            r.1@ == spec_open_requests(gpio_num, direction, already_exported),
            r.0@.log == r.1@,
    {
        let mut requests: Vec<PinRequest> = Vec::new();
        if !already_exported {
            requests.push(PinRequest::WriteExport(gpio_num));
        }
        requests.push(PinRequest::WriteActiveLow(gpio_num));
        requests.push(PinRequest::WriteDirection(gpio_num, direction));
        requests.push(PinRequest::OpenValueChannel(gpio_num, direction));
        proof {
            assert(requests@ =~= spec_open_requests(gpio_num, direction, already_exported));
            let base = Seq::<PinRequest>::empty();
            if !already_exported {
                lemma_counts_push(base, PinRequest::WriteExport(gpio_num));
            }
            let s0 = if already_exported {
                base
            } else {
                base.push(PinRequest::WriteExport(gpio_num))
            };
            lemma_counts_push(s0, PinRequest::WriteActiveLow(gpio_num));
            let s1 = s0.push(PinRequest::WriteActiveLow(gpio_num));
            lemma_counts_push(s1, PinRequest::WriteDirection(gpio_num, direction));
            let s2 = s1.push(PinRequest::WriteDirection(gpio_num, direction));
            lemma_counts_push(s2, PinRequest::OpenValueChannel(gpio_num, direction));
            assert(s2.push(PinRequest::OpenValueChannel(gpio_num, direction)) =~= requests@);
        }
        let lifecycle = PinLifecycle {
            gpio_num,
            direction,
            edge: GpioEdge::NoInterrupt,
            exported_by_open: !already_exported,
            torn_down: false,
            log: Ghost(requests@),
        };
        (lifecycle, requests)
    }

    /// The pin number this handle owns.
    pub fn gpio_num(&self) -> (r: u16)
        ensures
            r == self@.gpio_num,
    {
        self.gpio_num
    }

    /// The current transfer direction.
    pub fn direction(&self) -> (r: GpioDirection)
        ensures
            r == self@.direction,
    {
        self.direction
    }

    /// Whether the handle has already been torn down.
    pub fn is_torn_down(&self) -> (r: bool)
        ensures
            r == self@.torn_down,
    {
        self.torn_down
    }

    /// Switch the pin's direction: yields the requests the shell must
    /// perform, in order. The pin is neither re-exported nor re-polarized
    /// and keeps its identity; only the direction write and the reopening
    /// of the value channel are issued.
    pub fn switch_direction(&mut self, direction: GpioDirection) -> (r: Vec<PinRequest>)
        requires
            old(self).wf(),
            !old(self)@.torn_down,
        ensures
            final(self).wf(),
            final(self)@.gpio_num == old(self)@.gpio_num,
            final(self)@.direction == direction,
            final(self)@.edge == old(self)@.edge,
            final(self)@.exported_by_open == old(self)@.exported_by_open,
            !final(self)@.torn_down,
            r@ == spec_switch_requests(old(self)@.gpio_num, direction),
            final(self)@.log == old(self)@.log + r@,
    {
        let mut requests: Vec<PinRequest> = Vec::new();
        requests.push(PinRequest::WriteDirection(self.gpio_num, direction));
        requests.push(PinRequest::OpenValueChannel(self.gpio_num, direction));
        proof {
            assert(requests@ =~= spec_switch_requests(self.gpio_num, direction));
            lemma_counts_push(self.log@, PinRequest::WriteDirection(self.gpio_num, direction));
            lemma_counts_push(
                self.log@.push(PinRequest::WriteDirection(self.gpio_num, direction)),
                PinRequest::OpenValueChannel(self.gpio_num, direction),
            );
            assert(self.log@ + requests@ =~= self.log@.push(
                PinRequest::WriteDirection(self.gpio_num, direction),
            ).push(PinRequest::OpenValueChannel(self.gpio_num, direction)));
        }
        self.direction = direction;
        let ghost new_log = self.log@ + requests@;
        self.log = Ghost(new_log);
        requests
    }

    /// Configure the edge policy: yields the single edge write the shell
    /// must perform. Meaningful only while the pin is an input.
    pub fn set_edge(&mut self, edge: GpioEdge) -> (r: PinRequest)
        requires
            old(self).wf(),
            !old(self)@.torn_down,
            old(self)@.direction is Input,
        ensures
            final(self).wf(),
            final(self)@.gpio_num == old(self)@.gpio_num,
            final(self)@.direction == old(self)@.direction,
            final(self)@.edge == edge,
            final(self)@.exported_by_open == old(self)@.exported_by_open,
            !final(self)@.torn_down,
            r == PinRequest::WriteEdge(old(self)@.gpio_num, edge),
            final(self)@.log == old(self)@.log.push(r),
    {
        let request = PinRequest::WriteEdge(self.gpio_num, edge);
        proof {
            lemma_counts_push(self.log@, request);
        }
        self.edge = edge;
        let ghost new_log = self.log@.push(request);
        self.log = Ghost(new_log);
        request
    }

    /// Tear the handle down: yields the single unexport write the shell
    /// must attempt. A handle can be torn down only once; the shell
    /// attempts the write best-effort and swallows its failure.
    pub fn teardown(&mut self) -> (r: PinRequest)
        requires
            old(self).wf(),
            !old(self)@.torn_down,
        ensures
            final(self).wf(),
            final(self)@.gpio_num == old(self)@.gpio_num,
            final(self)@.direction == old(self)@.direction,
            final(self)@.edge == old(self)@.edge,
            final(self)@.exported_by_open == old(self)@.exported_by_open,
            final(self)@.torn_down,
            r == PinRequest::WriteUnexport(old(self)@.gpio_num),
            final(self)@.log == old(self)@.log.push(r),
    {
        let request = PinRequest::WriteUnexport(self.gpio_num);
        proof {
            lemma_counts_push(self.log@, request);
        }
        self.torn_down = true;
        let ghost new_log = self.log@.push(request);
        self.log = Ghost(new_log);
        request
    }
}

/// Over a whole lifetime — open, any number of direction switches and
/// edge configurations, then teardown — a handle issues exactly one
/// unexport request, issues exactly one export request when open had to
/// export the pin (and none when the pin was already visible), and every
/// request it ever issues names its own pin number.
pub proof fn lemma_lifecycle_request_discipline(p: &PinLifecycle)
    requires
        p.wf(),
        p@.torn_down,
    ensures
        unexports_in(p@.log) == 1,
        exports_in(p@.log) == if p@.exported_by_open {
            1int
        } else {
            0int
        },
        forall|i: int|
            0 <= i < p@.log.len() ==> spec_request_pin(#[trigger] p@.log[i]) == p@.gpio_num,
{
}

} // verus!
