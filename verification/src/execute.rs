//! The execution loop: reads packets until end-of-input or a stop
//! condition, matching and decoding one macro per iteration, and emits the
//! handler-decorated text of every macro it consumes.
//!
//! Exit codes: `0` for a normal end (input exhausted, or a terminator under
//! *stop-on-end*); `-1` when an invalid macro is met under
//! *stop-on-invalid*; any other value is the non-zero return of the macro
//! handler, surfaced verbatim.

use vstd::prelude::*;
use vstd::string::StringExecFns;
use crate::config::{HaltAt, gfxd_config};
use crate::macro_info::MacroRecord;
use crate::matcher::{lemma_match_basic, match_at, spec_match};
use crate::output::{push_macro_text, spec_dyn_view, spec_macro_text};
use crate::packet::{Packet, spec_read};
use crate::ucode::{MacroId, UcodeId, is_terminator, spec_is_terminator};

verus! {

/// Why a run ended.
pub enum StopReason {
    /// The input was exhausted.
    EndOfInput,
    /// An invalid macro was met under *stop-on-invalid*.
    InvalidHalt,
    /// The macro handler returned non-zero.
    HandlerHalt,
    /// A terminator was met under *stop-on-end*.
    Terminator,
}

/// One emitted macro, at the specification level.
pub struct SpecRec {
    pub id: MacroId,
    pub offset: int,
    pub count: int,
    pub args: Seq<crate::macro_info::Arg>,
    pub valid: bool,
    pub data: Seq<u8>,
}

/// The outcome of a run from a packet cursor: the emitted records, the
/// output text, the exit code, the number of packets consumed, and why the
/// run ended.
pub struct SpecRun {
    pub recs: Seq<SpecRec>,
    pub out: Seq<char>,
    pub rc: int,
    pub consumed: int,
    pub reason: StopReason,
}

/// The microcode selected by a configuration.
pub open spec fn cfg_ucode(c: gfxd_config) -> UcodeId {
    match c.ucode {
        Some(t) => t.id,
        None => UcodeId::F3d,
    }
}

/// What the macro handler returns for the macro with ordinal `n`.
pub open spec fn spec_handler_rc(halt: Option<HaltAt>, n: int) -> int {
    match halt {
        Some(h) => if h.nth == n {
            h.code as int
        } else {
            0
        },
        None => 0,
    }
}

/// The handler-decorated text of one macro.
pub open spec fn spec_handler_text(c: gfxd_config, id: MacroId, args: Seq<crate::macro_info::Arg>) -> Seq<char> {
    c.macro_prefix@ + spec_macro_text(id, args, spec_dyn_view(c.dynamic), c.arg_callbacks@, c.emit_dec_color)
        + c.macro_suffix@
}

/// The run from packet cursor `i`, the next macro having ordinal `n`.
pub open spec fn spec_run(c: gfxd_config, pkts: Seq<Packet>, i: int, n: int) -> SpecRun
    decreases pkts.len() - i,
{
    if i < 0 || i >= pkts.len() {
        SpecRun {
            recs: Seq::empty(),
            out: Seq::empty(),
            rc: 0,
            consumed: 0,
            reason: StopReason::EndOfInput,
        }
    } else {
        let m = spec_match(cfg_ucode(c), c.emit_ext_macro, pkts, i);
        let step = if 1 <= m.count && i + m.count <= pkts.len() {
            m.count
        } else {
            1
        };
        if m.id == MacroId::Invalid && c.stop_on_invalid {
            SpecRun {
                recs: Seq::empty(),
                out: Seq::empty(),
                rc: -1,
                consumed: step,
                reason: StopReason::InvalidHalt,
            }
        } else {
            let rec = SpecRec {
                id: m.id,
                offset: 8 * i,
                count: step,
                args: m.args,
                valid: m.valid,
                data: c.input@.subrange(8 * i, 8 * i + 8 * step),
            };
            let text = spec_handler_text(c, m.id, m.args);
            let rc = spec_handler_rc(c.handler_halt, n);
            if rc != 0 {
                SpecRun {
                    recs: seq![rec],
                    out: text,
                    rc,
                    consumed: step,
                    reason: StopReason::HandlerHalt,
                }
            } else if spec_is_terminator(m.id) && c.stop_on_end {
                SpecRun {
                    recs: seq![rec],
                    out: text,
                    rc: 0,
                    consumed: step,
                    reason: StopReason::Terminator,
                }
            } else {
                let rest = spec_run(c, pkts, i + step, n + 1);
                SpecRun {
                    recs: seq![rec] + rest.recs,
                    out: text + rest.out,
                    rc: rest.rc,
                    consumed: step + rest.consumed,
                    reason: rest.reason,
                }
            }
        }
    }
}

/// Whether an emitted record equals a specification-level one.
pub open spec fn rec_matches(x: MacroRecord, s: SpecRec) -> bool {
    &&& x.id == s.id
    &&& x.offset == s.offset
    &&& x.packets == s.count
    &&& x.data@ == s.data
    &&& x.args@ == s.args
    &&& x.valid == s.valid
}

/// Whether a vector of emitted records equals a specification-level
/// sequence.
pub open spec fn recs_match(xs: Seq<MacroRecord>, ss: Seq<SpecRec>) -> bool {
    xs.len() == ss.len() && (forall|j: int| 0 <= j < xs.len() ==> rec_matches(xs[j], #[trigger] ss[j]))
}

/// The outcome of one execution: the exit code, the emitted text, and the
/// emitted macro records in order.
pub struct Execution {
    pub ret: i32,
    pub output: String,
    pub macros: Vec<MacroRecord>,
}

/// Copies the byte range `[from, to)` of `v`.
fn copy_range(v: &Vec<u8>, from: usize, to: usize) -> (r: Vec<u8>)
    requires
        from <= to <= v@.len(),
    ensures
        r@ == v@.subrange(from as int, to as int),
{
    let mut r: Vec<u8> = Vec::new();
    let mut k: usize = from;
    while k < to
        invariant
            from <= k <= to <= v@.len(),
            r@ =~= v@.subrange(from as int, k as int),
        decreases to - k,
    {
        let b = v[k];
        r.push(b);
        k = k + 1;
    }
    proof {
        assert(r@ =~= v@.subrange(from as int, to as int));
    }
    r
}

impl gfxd_config {
    /// Runs the disassembler over the configured input with the current
    /// settings: packets are read, matched and decoded one macro at a time,
    /// and each macro's decorated text is appended to the output, until the
    /// input ends, an invalid macro is met under *stop-on-invalid* (exit
    /// code `-1`, nothing emitted for that packet), the handler returns
    /// non-zero (its value becomes the exit code), or a terminator is met
    /// under *stop-on-end*.
    #[verifier::rlimit(100)]
    pub fn execute(&self) -> (r: Execution)
        requires
            self.ucode is Some,
        ensures
            ({
                let run = spec_run(*self, spec_read(self.input@, self.endian, self.wordsize), 0, 0);
                &&& r.ret as int == run.rc
                &&& r.output@ == run.out
                &&& recs_match(r.macros@, run.recs)
            }),
    {
        let u = match &self.ucode {
            Some(t) => t.id,
            None => UcodeId::F3d,
        };
        let ext = self.emit_ext_macro;
        let pkts = read_packets_of(self);
        proof {
            crate::packet::lemma_read_len(self.input@, self.endian, self.wordsize);
        }
        let plen = pkts.len();
        let ilen = self.input.len();
        let mut out = String::new();
        let mut macros: Vec<MacroRecord> = Vec::new();
        let ghost mut drecs: Seq<SpecRec> = Seq::empty();
        let mut i: usize = 0;
        let mut n: usize = 0;
        let mut ret: i32 = 0;
        let mut done: bool = false;
        proof {
            assert(Seq::<char>::empty() + spec_run(*self, pkts@, 0, 0).out =~= spec_run(
                *self,
                pkts@,
                0,
                0,
            ).out);
            assert(Seq::<SpecRec>::empty() + spec_run(*self, pkts@, 0, 0).recs =~= spec_run(
                *self,
                pkts@,
                0,
                0,
            ).recs);
        }
        while !done && i < plen
            invariant
                self.ucode is Some,
                u == cfg_ucode(*self),
                ext == self.emit_ext_macro,
                pkts@ == spec_read(self.input@, self.endian, self.wordsize),
                plen == pkts@.len(),
                ilen == self.input@.len(),
                8 * pkts@.len() <= self.input@.len(),
                i <= plen,
                n == macros@.len(),
                n <= i,
                recs_match(macros@, drecs),
                !done ==> ret == 0,
                !done ==> ({
                    let full = spec_run(*self, pkts@, 0, 0);
                    let rest = spec_run(*self, pkts@, i as int, n as int);
                    &&& full.rc == rest.rc
                    &&& full.out == out@ + rest.out
                    &&& full.recs == drecs + rest.recs
                }),
                done ==> ({
                    let full = spec_run(*self, pkts@, 0, 0);
                    &&& full.rc == ret as int
                    &&& full.out == out@
                    &&& full.recs == drecs
                }),
            decreases plen - i,
        {
            let ghost rest = spec_run(*self, pkts@, i as int, n as int);
            let m = match_at(u, ext, &pkts, i);
            let ghost ms = spec_match(cfg_ucode(*self), self.emit_ext_macro, pkts@, i as int);
            let step = m.count;
            proof {
                assert(1 <= ms.count && i + ms.count <= pkts@.len());
            }
            if m.id == MacroId::Invalid && self.stop_on_invalid {
                ret = -1;
                done = true;
                i = i + step;
                proof {
                    assert(out@ + rest.out =~= out@);
                    assert(drecs + rest.recs =~= drecs);
                }
            } else {
                let data = copy_range(&self.input, 8 * i, 8 * i + 8 * step);
                let rec = MacroRecord {
                    id: m.id,
                    offset: 8 * i,
                    packets: step,
                    data,
                    args: m.args,
                    valid: m.valid,
                };
                let ghost srec = SpecRec {
                    id: ms.id,
                    offset: 8 * (i as int),
                    count: ms.count,
                    args: ms.args,
                    valid: ms.valid,
                    data: self.input@.subrange(8 * (i as int), 8 * (i as int) + 8 * ms.count),
                };
                out.append(self.macro_prefix.as_str());
                push_macro_text(
                    &mut out,
                    rec.id,
                    &rec.args,
                    &self.dynamic,
                    &self.arg_callbacks,
                    self.emit_dec_color,
                );
                out.append(self.macro_suffix.as_str());
                let rc: i32 = match &self.handler_halt {
                    Some(h) => if h.nth == n {
                        h.code
                    } else {
                        0
                    },
                    None => 0,
                };
                macros.push(rec);
                proof {
                    drecs = drecs.push(srec);
                    assert(drecs =~= drecs.subrange(0, drecs.len() - 1) + seq![srec]);
                }
                n = n + 1;
                i = i + step;
                if rc != 0 {
                    ret = rc;
                    done = true;
                } else if is_terminator(m.id) && self.stop_on_end {
                    done = true;
                } else {
                    proof {
                        let rest2 = spec_run(*self, pkts@, i as int, n as int);
                        assert(rest.recs =~= seq![srec] + rest2.recs);
                        let full = spec_run(*self, pkts@, 0, 0);
                        assert(full.out =~= out@ + rest2.out);
                        assert(full.recs =~= drecs + rest2.recs);
                    }
                }
            }
        }
        proof {
            if !done {
                let full = spec_run(*self, pkts@, 0, 0);
                let rest = spec_run(*self, pkts@, i as int, n as int);
                assert(rest.out =~= Seq::<char>::empty());
                assert(full.out =~= out@);
                assert(full.recs =~= drecs);
            }
        }
        Execution { ret, output: out, macros }
    }
}

/// Reads all packets of the configured input under the configured byte
/// order and word size.
fn read_packets_of(c: &gfxd_config) -> (r: Vec<Packet>)
    ensures
        r@ == spec_read(c.input@, c.endian, c.wordsize),
{
    crate::packet::read_packets(c.input.as_slice(), c.endian, c.wordsize)
}


/// The total number of packets over a sequence of emitted records.
pub open spec fn total_packets(recs: Seq<SpecRec>) -> int
    decreases recs.len(),
{
    if recs.len() == 0 {
        0
    } else {
        recs[0].count + total_packets(recs.skip(1))
    }
}

/// Prepending a record adds its packet count to the total.
proof fn lemma_total_cons(x: SpecRec, s: Seq<SpecRec>)
    ensures
        total_packets(seq![x] + s) == x.count + total_packets(s),
{
    reveal_with_fuel(total_packets, 2);
    assert((seq![x] + s).skip(1) =~= s);
    assert((seq![x] + s)[0] == x);
}

/// Appending a record adds its packet count to the total.
proof fn lemma_total_snoc(s: Seq<SpecRec>, x: SpecRec)
    ensures
        total_packets(s + seq![x]) == total_packets(s) + x.count,
    decreases s.len(),
{
    reveal_with_fuel(total_packets, 3);
    if s.len() == 0 {
        assert(s + seq![x] =~= seq![x]);
        assert(seq![x].skip(1) =~= Seq::<SpecRec>::empty());
    } else {
        assert((s + seq![x]).skip(1) =~= s.skip(1) + seq![x]);
        lemma_total_snoc(s.skip(1), x);
        assert((s + seq![x])[0] == s[0]);
    }
}

/// Packet conservation: every emitted macro consumes at least one packet,
/// and the number of packets consumed by a run equals the sum of
/// `macro_packets` over the emitted macros — plus the one packet of the
/// invalid macro when the run halts on it under *stop-on-invalid*, for
/// which no macro is emitted.
pub proof fn lemma_packet_conservation(c: gfxd_config, pkts: Seq<Packet>, i: int, n: int)
    ensures
        ({
            let r = spec_run(c, pkts, i, n);
            &&& r.consumed == total_packets(r.recs) + (if r.reason is InvalidHalt {
                1int
            } else {
                0int
            })
            &&& (forall|j: int| 0 <= j < r.recs.len() ==> (#[trigger] r.recs[j]).count >= 1)
        }),
    decreases pkts.len() - i,
{
    reveal_with_fuel(total_packets, 3);
    let r = spec_run(c, pkts, i, n);
    if i < 0 || i >= pkts.len() {
    } else {
        let m = spec_match(cfg_ucode(c), c.emit_ext_macro, pkts, i);
        lemma_match_basic(cfg_ucode(c), c.emit_ext_macro, pkts, i);
        let step = m.count;
        if m.id == MacroId::Invalid && c.stop_on_invalid {
        } else {
            let rec = SpecRec {
                id: m.id,
                offset: 8 * i,
                count: step,
                args: m.args,
                valid: m.valid,
                data: c.input@.subrange(8 * i, 8 * i + 8 * step),
            };
            let rc = spec_handler_rc(c.handler_halt, n);
            if rc != 0 || (spec_is_terminator(m.id) && c.stop_on_end) {
                assert(seq![rec].skip(1) =~= Seq::<SpecRec>::empty());
            } else {
                lemma_packet_conservation(c, pkts, i + step, n + 1);
                let rest = spec_run(c, pkts, i + step, n + 1);
                lemma_total_cons(rec, rest.recs);
            }
        }
    }
}

/// Offsets: the `j`-th emitted macro of a run starting at packet cursor
/// `i` stands at byte offset `8 * i` plus eight bytes for every packet the
/// macros before it consumed.
pub proof fn lemma_offsets(c: gfxd_config, pkts: Seq<Packet>, i: int, n: int)
    ensures
        ({
            let r = spec_run(c, pkts, i, n);
            forall|j: int|
                0 <= j < r.recs.len() ==> (#[trigger] r.recs[j]).offset == 8 * i + 8
                    * total_packets(r.recs.take(j))
        }),
    decreases pkts.len() - i,
{
    let r = spec_run(c, pkts, i, n);
    if i < 0 || i >= pkts.len() {
    } else {
        let m = spec_match(cfg_ucode(c), c.emit_ext_macro, pkts, i);
        lemma_match_basic(cfg_ucode(c), c.emit_ext_macro, pkts, i);
        let step = m.count;
        if m.id == MacroId::Invalid && c.stop_on_invalid {
        } else {
            let rec = SpecRec {
                id: m.id,
                offset: 8 * i,
                count: step,
                args: m.args,
                valid: m.valid,
                data: c.input@.subrange(8 * i, 8 * i + 8 * step),
            };
            let rc = spec_handler_rc(c.handler_halt, n);
            if rc != 0 || (spec_is_terminator(m.id) && c.stop_on_end) {
                assert forall|j: int| 0 <= j < r.recs.len() implies (#[trigger] r.recs[j]).offset
                    == 8 * i + 8 * total_packets(r.recs.take(j)) by {
                    assert(r.recs.take(0) =~= Seq::<SpecRec>::empty());
                }
            } else {
                lemma_offsets(c, pkts, i + step, n + 1);
                let rest = spec_run(c, pkts, i + step, n + 1);
                assert forall|j: int| 0 <= j < r.recs.len() implies (#[trigger] r.recs[j]).offset
                    == 8 * i + 8 * total_packets(r.recs.take(j)) by {
                    if j == 0 {
                        assert(r.recs.take(0) =~= Seq::<SpecRec>::empty());
                    } else {
                        assert(r.recs[j] == rest.recs[j - 1]);
                        assert(r.recs.take(j) =~= seq![rec] + rest.recs.take(j - 1));
                        lemma_total_cons(rec, rest.recs.take(j - 1));
                    }
                }
            }
        }
    }
}

/// Adjacent offsets: each emitted macro's offset is the previous macro's
/// offset plus eight bytes per packet the previous macro consumed.
pub proof fn lemma_offset_chain(c: gfxd_config, pkts: Seq<Packet>, i: int, n: int)
    ensures
        ({
            let r = spec_run(c, pkts, i, n);
            forall|j: int|
                1 <= j < r.recs.len() ==> (#[trigger] r.recs[j]).offset == r.recs[j - 1].offset + 8
                    * r.recs[j - 1].count
        }),
{
    let r = spec_run(c, pkts, i, n);
    lemma_offsets(c, pkts, i, n);
    assert forall|j: int|
        1 <= j < r.recs.len() implies (#[trigger] r.recs[j]).offset == r.recs[j - 1].offset + 8
        * r.recs[j - 1].count by {
        assert(r.recs.take(j) =~= r.recs.take(j - 1) + seq![r.recs[j - 1]]);
        lemma_total_snoc(r.recs.take(j - 1), r.recs[j - 1]);
    }
}

/// Valid macros re-encode: every emitted macro whose `valid` flag is set
/// re-encodes from its decoded argument values to exactly the packets it
/// was decoded from.
pub proof fn lemma_valid_reencode(c: gfxd_config, pkts: Seq<Packet>, i: int, n: int)
    requires
        0 <= i,
    ensures
        ({
            let r = spec_run(c, pkts, i, n);
            forall|j: int|
                0 <= j < r.recs.len() && (#[trigger] r.recs[j]).valid
                    ==> crate::matcher::spec_encode(cfg_ucode(c), r.recs[j].id, r.recs[j].args)
                    == Some(
                    pkts.subrange(
                        r.recs[j].offset / 8,
                        r.recs[j].offset / 8 + r.recs[j].count,
                    ),
                )
        }),
    decreases pkts.len() - i,
{
    let r = spec_run(c, pkts, i, n);
    if i < 0 || i >= pkts.len() {
    } else {
        let m = spec_match(cfg_ucode(c), c.emit_ext_macro, pkts, i);
        lemma_match_basic(cfg_ucode(c), c.emit_ext_macro, pkts, i);
        let step = m.count;
        vstd::arithmetic::div_mod::lemma_fundamental_div_mod_converse(8 * i, 8, i, 0);
        if m.id == MacroId::Invalid && c.stop_on_invalid {
        } else {
            let rc = spec_handler_rc(c.handler_halt, n);
            if rc != 0 || (spec_is_terminator(m.id) && c.stop_on_end) {
            } else {
                lemma_valid_reencode(c, pkts, i + step, n + 1);
            }
        }
    }
}


/// The sub-packet view of one constituent packet of a macro: the packet
/// re-matched as a single-packet macro of its own, standing at its own
/// offset inside the containing macro's data.
pub open spec fn spec_sub_record(rec: MacroRecord, c: gfxd_config, k: int) -> SpecRec {
    let pkts = spec_read(rec.data@, c.endian, c.wordsize);
    let m = spec_match(cfg_ucode(c), c.emit_ext_macro, seq![pkts[k]], 0);
    SpecRec {
        id: m.id,
        offset: rec.offset + 8 * k,
        count: 1,
        args: m.args,
        valid: m.valid,
        data: rec.data@.subrange(8 * k, 8 * k + 8),
    }
}

/// Re-enters the matcher over each individual sub-packet of a macro: each
/// constituent packet becomes a current macro of its own, so that the
/// information queries describe the sub-packet. A single-packet macro is
/// processed as one sub-packet.
pub fn foreach_pkt(rec: &MacroRecord, c: &gfxd_config) -> (r: Vec<MacroRecord>)
    requires
        c.ucode is Some,
        rec.offset + rec.data@.len() <= usize::MAX,
    ensures
        r@.len() == spec_read(rec.data@, c.endian, c.wordsize).len(),
        forall|k: int|
            0 <= k < r@.len() ==> rec_matches(#[trigger] r@[k], spec_sub_record(*rec, *c, k)),
{
    let u = match &c.ucode {
        Some(t) => t.id,
        None => UcodeId::F3d,
    };
    let ext = c.emit_ext_macro;
    let pkts = crate::packet::read_packets(rec.data.as_slice(), c.endian, c.wordsize);
    proof {
        crate::packet::lemma_read_len(rec.data@, c.endian, c.wordsize);
    }
    let dlen = rec.data.len();
    let mut r: Vec<MacroRecord> = Vec::new();
    let mut k: usize = 0;
    while k < pkts.len()
        invariant
            c.ucode is Some,
            u == cfg_ucode(*c),
            ext == c.emit_ext_macro,
            pkts@ == spec_read(rec.data@, c.endian, c.wordsize),
            dlen == rec.data@.len(),
            8 * pkts@.len() <= rec.data@.len(),
            rec.offset + rec.data@.len() <= usize::MAX,
            k <= pkts@.len(),
            r@.len() == k,
            forall|j: int|
                0 <= j < k ==> rec_matches(#[trigger] r@[j], spec_sub_record(*rec, *c, j)),
        decreases pkts@.len() - k,
    {
        let p = pkts[k];
        let mut single: Vec<Packet> = Vec::new();
        single.push(p);
        proof {
            assert(single@ =~= seq![pkts@[k as int]]);
        }
        let m = match_at(u, ext, &single, 0);
        let data = copy_range(&rec.data, 8 * k, 8 * k + 8);
        let sub = MacroRecord {
            id: m.id,
            offset: rec.offset + 8 * k,
            packets: 1,
            data,
            args: m.args,
            valid: m.valid,
        };
        r.push(sub);
        k = k + 1;
    }
    r
}


/// Whether two configurations agree on everything that decides matching
/// and output text: microcode, features, decoration, dynamic literal, and
/// halt rule. Input bytes and byte order may differ.
pub open spec fn same_text_config(c1: gfxd_config, c2: gfxd_config) -> bool {
    &&& c1.ucode == c2.ucode
    &&& c1.stop_on_invalid == c2.stop_on_invalid
    &&& c1.stop_on_end == c2.stop_on_end
    &&& c1.emit_dec_color == c2.emit_dec_color
    &&& c1.emit_ext_macro == c2.emit_ext_macro
    &&& c1.macro_prefix@ == c2.macro_prefix@
    &&& c1.macro_suffix@ == c2.macro_suffix@
    &&& spec_dyn_view(c1.dynamic) == spec_dyn_view(c2.dynamic)
    &&& c1.arg_callbacks@ == c2.arg_callbacks@
    &&& c1.handler_halt == c2.handler_halt
}

/// Runs over the same packets under configurations that agree on matching
/// and text produce the same output, exit code and packet consumption; the
/// emitted records can differ only in their raw data bytes.
pub proof fn lemma_run_text_agrees(c1: gfxd_config, c2: gfxd_config, pkts: Seq<Packet>, i: int, n: int)
    requires
        same_text_config(c1, c2),
    ensures
        ({
            let r1 = spec_run(c1, pkts, i, n);
            let r2 = spec_run(c2, pkts, i, n);
            &&& r1.out == r2.out
            &&& r1.rc == r2.rc
            &&& r1.consumed == r2.consumed
            &&& r1.reason == r2.reason
            &&& r1.recs.len() == r2.recs.len()
        }),
    decreases pkts.len() - i,
{
    if i < 0 || i >= pkts.len() {
    } else {
        let m = spec_match(cfg_ucode(c1), c1.emit_ext_macro, pkts, i);
        let step = if 1 <= m.count && i + m.count <= pkts.len() {
            m.count
        } else {
            1
        };
        if m.id == MacroId::Invalid && c1.stop_on_invalid {
        } else {
            let rc = spec_handler_rc(c1.handler_halt, n);
            if rc != 0 || (spec_is_terminator(m.id) && c1.stop_on_end) {
            } else {
                lemma_run_text_agrees(c1, c2, pkts, i + step, n + 1);
            }
        }
    }
}

/// Endianness and word size commute across a whole execution: running over
/// the group-wise byte-swapped input under the flipped endianness yields
/// identical output, exit code and packet consumption.
pub proof fn lemma_endian_commute_run(c1: gfxd_config, c2: gfxd_config)
    requires
        same_text_config(c1, c2),
        c2.input@ == crate::packet::swap_groups(c1.input@, c1.wordsize.spec_bytes()),
        c2.endian == c1.endian.spec_flip(),
        c2.wordsize == c1.wordsize,
    ensures
        ({
            let r1 = spec_run(c1, spec_read(c1.input@, c1.endian, c1.wordsize), 0, 0);
            let r2 = spec_run(c2, spec_read(c2.input@, c2.endian, c2.wordsize), 0, 0);
            &&& r1.out == r2.out
            &&& r1.rc == r2.rc
            &&& r1.consumed == r2.consumed
        }),
{
    crate::packet::lemma_endian_flip(c1.input@, c1.endian, c1.wordsize);
    let pkts = spec_read(c1.input@, c1.endian, c1.wordsize);
    lemma_run_text_agrees(c1, c2, pkts, 0, 0);
}

} // verus!
