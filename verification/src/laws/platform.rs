//! What the places a platform is recorded in say of it.
use crate::hypervisor::{
    DetectionSource, ExitCost, HypervisorView, ProbeView, RegistryEvidence, ReportView,
};
use crate::reprobe::Gate;
use crate::text::Trim;
use vstd::prelude::*;

verus! {

/// Making capitals small changes nothing but them.
pub proof fn small_letters_are_the_same_text(s: Seq<char>)
    ensures
        crate::text::lowered(s).len() == s.len(),
        forall|i: int|
            0 <= i < s.len() ==> (#[trigger] crate::text::lowered(s)[i]) as int
                == crate::laws::text::small(s[i]),
{
    assert forall|i: int| 0 <= i < s.len() implies (#[trigger] crate::text::lowered(s)[i]) as int
        == crate::laws::text::small(s[i]) by {
        let c = s[i];
        assert(crate::text::lowered(s)[i] == crate::text::lower_char(c));
    }
}

/// A file's text counts without the white space and NULs at its ends, and a
/// file that holds nothing else, or is not there, counts for nothing.
pub proof fn an_empty_file_counts_for_nothing(text: Seq<char>)
    ensures
        crate::hypervisor::tidied(None) is None,
        crate::hypervisor::tidied(Some(text)) matches Some(inner) ==> inner.len() > 0 && inner
            == crate::text::trimmed(text, Trim::SpaceOrNul),
        crate::hypervisor::tidied(Some(text)) is None <==> crate::text::trimmed(
            text,
            Trim::SpaceOrNul,
        ).len() == 0,
{
}

/// A hypervisor type that is Xen, whatever its capitals, is Xen; any other
/// one is named as it is, in small letters.
pub proof fn the_hypervisor_type_is_named(r: ReportView, text: Seq<char>, inner: Seq<char>)
    requires
        crate::hypervisor::tidied(Some(text)) == Some(inner),
        r.hypervisor is Absent,
    ensures
        ({
            let after = r.with_type(Some(text));
            &&& crate::text::lowered(inner) == "xen"@ ==> after.hypervisor is Xen
            &&& crate::text::lowered(inner) != "xen"@ ==> after.hypervisor == HypervisorView::Other(
                crate::text::lowered(inner),
            )
            &&& after.sources == r.noting(DetectionSource::SysHypervisor).sources
        }),
        r.with_type(None) == r,
{
}

/// A device tree's hypervisor is Xen where it mentions Xen, else KVM where it
/// mentions KVM, else what it says.
pub proof fn the_device_tree_is_named(r: ReportView, text: Seq<char>, inner: Seq<char>)
    requires
        crate::hypervisor::tidied(Some(text)) == Some(inner),
        r.hypervisor is Absent,
    ensures
        ({
            let after = r.with_device_tree(Some(text));
            &&& after.hypervisor is Xen <==> crate::laws::text::mentions(inner, "xen"@)
            &&& after.hypervisor is Kvm <==> crate::laws::text::mentions(inner, "kvm"@)
                && !crate::laws::text::mentions(inner, "xen"@)
            &&& !crate::laws::text::mentions(inner, "xen"@) && !crate::laws::text::mentions(
                inner,
                "kvm"@,
            ) ==> after.hypervisor is Other
            &&& after.sources == r.noting(DetectionSource::DeviceTree).sources
        }),
        r.with_device_tree(None) == r,
{
    crate::laws::text::small_letters_hold_what_is_mentioned(inner, "xen"@);
    crate::laws::text::small_letters_hold_what_is_mentioned(inner, "kvm"@);
}

/// A kernel whose release mentions Microsoft is WSL's, which runs on Hyper-V
/// and takes its place; another hypervisor's name stays.
pub proof fn a_microsoft_release_is_wsl(r: ReportView, text: Seq<char>, inner: Seq<char>)
    requires
        crate::hypervisor::tidied(Some(text)) == Some(inner),
    ensures
        ({
            let after = r.with_release(Some(text));
            let microsoft = crate::laws::text::mentions(inner, "microsoft"@);
            &&& !microsoft ==> after == r
            &&& microsoft && (r.hypervisor is Absent || r.hypervisor is HyperV)
                ==> after.hypervisor is Wsl
            &&& microsoft && !(r.hypervisor is Absent || r.hypervisor is HyperV)
                ==> after.hypervisor == r.hypervisor
            &&& microsoft ==> after.sources == r.noting(DetectionSource::ProcCpuinfo).sources
        }),
        r.with_release(None) == r,
{
    crate::laws::text::small_letters_hold_what_is_mentioned(inner, "microsoft"@);
}

/// Hyper-V's bus names Hyper-V, Xen's directory Xen, and a virtio bus, which
/// several hypervisors offer, none: each is evidence of a guest.
pub proof fn paravirtual_buses_name_their_host(r: ReportView, vmbus: bool, xen: bool, virtio: bool)
    ensures
        ({
            let after = r.with_buses(vmbus, xen, virtio);
            &&& r.hypervisor is Absent && vmbus ==> after.hypervisor is HyperV
            &&& r.hypervisor is Absent && !vmbus && xen ==> after.hypervisor is Xen
            &&& !vmbus && !xen ==> after.hypervisor == r.hypervisor
            &&& !(r.hypervisor is Absent) ==> after.hypervisor == r.hypervisor
            &&& vmbus || xen || virtio ==> after.sources == r.noting(
                DetectionSource::ParavirtualBus,
            ).sources
            &&& !vmbus && !xen && !virtio ==> after == r
        }),
{
    let a = r.noting(DetectionSource::ParavirtualBus);
    if !r.sources.contains(DetectionSource::ParavirtualBus) {
        assert(a.sources[r.sources.len() as int] == DetectionSource::ParavirtualBus);
    }
    assert(a.sources.contains(DetectionSource::ParavirtualBus));
}

/// A clocksource that names a hypervisor is evidence of it.
pub proof fn a_clocksource_is_evidence(r: ReportView, text: Seq<char>, inner: Seq<char>)
    requires
        crate::hypervisor::tidied(Some(text)) == Some(inner),
        r.hypervisor is Absent,
    ensures
        ({
            let after = r.with_clocksource(Some(text));
            &&& inner == "kvm-clock"@ ==> after.hypervisor is Kvm
            &&& inner == "xen"@ ==> after.hypervisor is Xen
            &&& inner == "vmware"@ ==> after.hypervisor is VMware
            &&& inner.len() >= 6 && inner.take(6) == "hyperv"@ ==> after.hypervisor is HyperV
            &&& inner == "tsc"@ ==> after == r
        }),
        r.with_clocksource(None) == r,
{
    crate::laws::detection::clocksources_name_their_host(inner);
    reveal_strlit("tsc");
    reveal_strlit("kvm-clock");
    reveal_strlit("xen");
    reveal_strlit("vmware");
    assert("tsc"@.len() == 3 && "tsc"@[0] == 't');
    assert("xen"@[0] == 'x' && "vmware"@.len() == 6 && "kvm-clock"@.len() == 9);
}

/// A Darwin kernel that says it is a guest is one, and no other answer says
/// so: Apple's own where the model is a VirtualMac, whatever its capitals.
pub proof fn a_darwin_guest_says_so(r: ReportView, present: Option<u64>, model: Option<Seq<char>>)
    requires
        r.hypervisor is Absent,
    ensures
        ({
            let after = r.with_mac(present, model);
            &&& present != Some(1u64) ==> after == r
            &&& present == Some(1u64) ==> after.sources == r.noting(
                DetectionSource::MacSysctl,
            ).sources
            &&& present == Some(1u64) && model is Some ==> (after.hypervisor is AppleVz
                <==> crate::laws::text::mentions(model->0, "virtualmac"@))
            &&& present == Some(1u64) && model is None ==> after.hypervisor is Other
        }),
{
    if let Some(model) = model {
        crate::laws::text::small_letters_hold_what_is_mentioned(model, "virtualmac"@);
    }
}

/// Windows in a Hyper-V guest keeps that guest's key, which says so before
/// any firmware string; without it the manufacturer, the product and the BIOS
/// are asked in turn.
pub proof fn the_registry_is_asked_in_turn(g: RegistryEvidence)
    ensures
        g.guest_parameters ==> g.named() == Some(HypervisorView::HyperV),
        !g.guest_parameters ==> {
            let m = crate::hypervisor::identified_by(
                crate::hypervisor::text_of(g.system_manufacturer),
            );
            let p = crate::hypervisor::identified_by(
                crate::hypervisor::text_of(g.system_product_name),
            );
            let b = crate::hypervisor::identified_by(crate::hypervisor::text_of(g.bios_vendor));
            &&& m is Some ==> g.named() == m
            &&& m is None && p is Some ==> g.named() == p
            &&& m is None && p is None ==> g.named() == b
        },
{
}

/// A timed trap counts as evidence where it suggests an exit, and is kept
/// with the report either way.
pub proof fn a_timed_trap_is_kept(r: ReportView, cost: ExitCost)
    ensures
        r.with_exit_cost(Some(cost)).exit_cost == Some(cost),
        cost.suggests_exit ==> r.with_exit_cost(Some(cost)).sources.contains(
            DetectionSource::ExitCostTiming,
        ),
        !cost.suggests_exit ==> r.with_exit_cost(Some(cost)).sources == r.sources,
        r.with_exit_cost(Some(cost)).hypervisor == r.hypervisor,
        r.with_exit_cost(None) == r,
{
    let noted = r.noting(DetectionSource::ExitCostTiming);
    if !r.sources.contains(DetectionSource::ExitCostTiming) {
        assert(noted.sources[r.sources.len() as int] == DetectionSource::ExitCostTiming);
    }
}

/// The kernel module's word is taken with the report: a hypercall it had
/// accepted names KVM where it was AMD's, and an unidentified hypervisor
/// otherwise, unless one was named before. Its trap cost replaces the
/// estimate, judged by more than twenty baselines again.
pub proof fn the_module_is_taken_at_its_word(r: ReportView, probe: ProbeView)
    ensures
        ({
            let after = r.with_module(Some(probe));
            let call = probe.vmcall_ok == Some(true) || probe.vmmcall_ok == Some(true)
                || probe.hvc_ok == Some(true);
            &&& after.kernel == Some(probe)
            &&& after.sources == r.noting(DetectionSource::KernelModule).sources
            &&& r.hypervisor is Absent && call ==> (after.hypervisor is Kvm <==> probe.vmmcall_ok
                == Some(true))
            &&& r.hypervisor is Absent && call && probe.vmmcall_ok != Some(true)
                ==> after.hypervisor is Other
            &&& !call || !(r.hypervisor is Absent) ==> after.hypervisor == r.hypervisor
            &&& probe.exit_cycles is None || r.exit_cost is None ==> after.exit_cost == r.exit_cost
            &&& probe.exit_cycles is Some && r.exit_cost is Some ==> {
                let cost = r.exit_cost->0;
                let cycles = probe.exit_cycles->0;
                after.exit_cost matches Some(refined) && refined.trap_cycles == cycles
                    && refined.baseline_cycles == cost.baseline_cycles && (cost.baseline_cycles > 0
                    ==> (refined.suggests_exit <==> cycles > 20 * cost.baseline_cycles)) && (
                cost.baseline_cycles == 0 ==> refined.suggests_exit == cost.suggests_exit)
            }
        }),
        r.with_module(None) == r,
{
}

/// Each key of the module's report fills its own field and no other: flags
/// are `1` and `0`, and anything else leaves the flag open.
pub proof fn each_key_fills_its_field(p: ProbeView, key: Seq<char>, value: Seq<char>)
    ensures
        ({
            let q = crate::hypervisor::with_pair(p, key, value);
            let flag = if value == "1"@ {
                Some(true)
            } else if value == "0"@ {
                Some(false)
            } else {
                None
            };
            &&& q.vmcall_ok == (if key == "vmcall_ok"@ {
                flag
            } else {
                p.vmcall_ok
            })
            &&& q.vmmcall_ok == (if key == "vmmcall_ok"@ {
                flag
            } else {
                p.vmmcall_ok
            })
            &&& q.hvc_ok == (if key == "hvc_ok"@ {
                flag
            } else {
                p.hvc_ok
            })
            &&& q.vmx_available == (if key == "vmx_available"@ {
                flag
            } else {
                p.vmx_available
            })
            &&& q.svm_available == (if key == "svm_available"@ {
                flag
            } else {
                p.svm_available
            })
            &&& key != "version"@ ==> q.version == p.version
            &&& key != "hypercall_result"@ ==> q.hypercall_result == p.hypercall_result
            &&& key != "current_el"@ ==> q.current_el == p.current_el
            &&& key != "exit_cycles"@ ==> q.exit_cycles == p.exit_cycles
            &&& key != "cpu_family"@ ==> q.cpu_family == p.cpu_family
            &&& key != "centaur_max_leaf"@ ==> q.centaur_max_leaf == p.centaur_max_leaf
            &&& key != "hvc_vendor_uid"@ ==> q.hvc_vendor_uid == p.hvc_vendor_uid
            &&& key != "hypercall_probes"@ ==> q.hypercall_probes == p.hypercall_probes
            &&& key != "hypercall_age_ms"@ ==> q.hypercall_age_ms == p.hypercall_age_ms
            &&& key != "hypercall_cooldown_s"@ ==> q.hypercall_cooldown_s == p.hypercall_cooldown_s
            &&& key != "hypercall_next_ms"@ ==> q.hypercall_next_ms == p.hypercall_next_ms
        }),
{
    lemma_keys_differ();
}

/// The number that a value of the module's report spells in decimal.
pub open spec fn spelled(value: Seq<char>, limit: int) -> Option<int> {
    crate::text::unsigned_value(value, 10, limit)
}

/// The keys that hold numbers give the numbers they spell, in decimal but for
/// the leaf behind its `0x`, and nothing where they spell none.
pub proof fn numbers_are_read_as_spelled(p: ProbeView, value: Seq<char>)
    ensures
        ({
            let el = crate::hypervisor::with_pair(p, "current_el"@, value).current_el;
            let cycles = crate::hypervisor::with_pair(p, "exit_cycles"@, value).exit_cycles;
            let probes = crate::hypervisor::with_pair(
                p,
                "hypercall_probes"@,
                value,
            ).hypercall_probes;
            let age = crate::hypervisor::with_pair(p, "hypercall_age_ms"@, value).hypercall_age_ms;
            let cooldown = crate::hypervisor::with_pair(
                p,
                "hypercall_cooldown_s"@,
                value,
            ).hypercall_cooldown_s;
            let next = crate::hypervisor::with_pair(
                p,
                "hypercall_next_ms"@,
                value,
            ).hypercall_next_ms;
            &&& el == (match spelled(value, u32::MAX as int) {
                Some(n) => Some(n as u32),
                None => None,
            })
            &&& cycles == (match spelled(value, u64::MAX as int) {
                Some(n) => Some(n as u64),
                None => None,
            })
            &&& probes == el
            &&& age == cycles
            &&& cooldown == el
            &&& next == cycles
            &&& crate::hypervisor::with_pair(p, "version"@, value).version == (match spelled(
                value,
                u32::MAX as int,
            ) {
                Some(n) => n as u32,
                None => 0,
            })
            &&& crate::hypervisor::with_pair(p, "cpu_family"@, value).cpu_family == Some(value)
        }),
{
    lemma_keys_differ();
}

/// The keys of the module's report are all different.
proof fn lemma_keys_differ()
    ensures
        "version"@.len() == 7 && "version"@[0] == 'v',
        "vmcall_ok"@.len() == 9 && "vmcall_ok"@[2] == 'c',
        "vmmcall_ok"@.len() == 10 && "vmmcall_ok"@[0] == 'v',
        "hvc_ok"@.len() == 6,
        "hypercall_result"@.len() == 16 && "hypercall_result"@[0] == 'h'
            && "hypercall_result"@[10] == 'r',
        "vmx_available"@.len() == 13 && "vmx_available"@[0] == 'v',
        "svm_available"@.len() == 13 && "svm_available"@[0] == 's',
        "current_el"@.len() == 10 && "current_el"@[0] == 'c' && "current_el"@[1] == 'u',
        "exit_cycles"@.len() == 11,
        "cpu_family"@.len() == 10 && "cpu_family"@[0] == 'c' && "cpu_family"@[1] == 'p',
        "hypercall_probes"@.len() == 16 && "hypercall_probes"@[0] == 'h'
            && "hypercall_probes"@[10] == 'p',
        "hypercall_age_ms"@.len() == 16 && "hypercall_age_ms"@[0] == 'h'
            && "hypercall_age_ms"@[10] == 'a',
        "hypercall_cooldown_s"@.len() == 20,
        "hypercall_next_ms"@.len() == 17,
        "centaur_max_leaf"@.len() == 16 && "centaur_max_leaf"@[0] == 'c',
        "hvc_vendor_uid"@.len() == 14,
{
    reveal_strlit("version");
    reveal_strlit("vmcall_ok");
    reveal_strlit("vmmcall_ok");
    reveal_strlit("hvc_ok");
    reveal_strlit("hypercall_result");
    reveal_strlit("vmx_available");
    reveal_strlit("svm_available");
    reveal_strlit("current_el");
    reveal_strlit("exit_cycles");
    reveal_strlit("cpu_family");
    reveal_strlit("hypercall_probes");
    reveal_strlit("hypercall_age_ms");
    reveal_strlit("hypercall_cooldown_s");
    reveal_strlit("hypercall_next_ms");
    reveal_strlit("centaur_max_leaf");
    reveal_strlit("hvc_vendor_uid");
}

/// A line of the module's report is a key and a value, parted at the first
/// equals sign and without white space around them. Of several lines with one
/// key the last counts, and a line without an equals sign does not.
pub proof fn lines_are_keys_and_values(lines: Seq<Seq<char>>, line: Seq<char>)
    ensures
        crate::hypervisor::report_of(lines.push(line)) == (match crate::text::parted(line, '=') {
            Some((key, value)) => crate::hypervisor::with_pair(
                crate::hypervisor::report_of(lines),
                crate::text::trimmed(key, Trim::Space),
                crate::text::trimmed(value, Trim::Space),
            ),
            None => crate::hypervisor::report_of(lines),
        }),
{
    assert(lines.push(line).drop_last() =~= lines);
    assert(lines.push(line).last() == line);
}

/// A report at the module's place is no hypervisor's where it says it is the
/// counters', and where it has none of the hypervisor's keys.
pub proof fn a_counter_report_is_no_hypervisor_report(text: Seq<char>, i: int)
    requires
        0 <= i < crate::text::text_lines(text).len(),
        crate::text::trimmed(crate::text::text_lines(text)[i], Trim::Space) == "source=perf"@,
    ensures
        crate::hypervisor::module_report(text) is None,
{
}

/// The names in a raw firmware table: parts end at a zero, and one counts
/// where it is at least three printable characters. Names are put together
/// with a bar between them.
pub proof fn names_stand_between_zeros(part: Seq<u8>, rest: Seq<u8>, before: Option<Seq<char>>)
    requires
        !part.contains(0),
    ensures
        ({
            let name = part.len() >= 3 && forall|i: int|
                0 <= i < part.len() ==> 0x20 <= #[trigger] part[i] < 0x7F;
            let shown = crate::text::trimmed(
                Seq::new(part.len(), |i: int| part[i] as char),
                Trim::Space,
            );
            crate::hypervisor::names_in(part + seq![0u8] + rest, before)
                == crate::hypervisor::names_in(
                rest,
                if !name {
                    before
                } else {
                    Some(
                        match before {
                            Some(text) => text + " | "@ + shown,
                            None => shown,
                        },
                    )
                },
            )
        }),
{
    let table = part + seq![0u8] + rest;
    lemma_before_nul(part, rest);
    assert(crate::bytes::before_nul(table) == part);
    assert(table.skip(part.len() as int + 1) =~= rest);
    assert(crate::hypervisor::ascii_text(part) =~= Seq::new(
        part.len(),
        |i: int| part[i] as char,
    ));
    let name = part.len() >= 3 && forall|i: int|
        0 <= i < part.len() ==> 0x20 <= #[trigger] part[i] < 0x7F;
    assert(crate::hypervisor::is_name(part) == name) by {
        if crate::hypervisor::is_name(part) {
            assert forall|i: int| 0 <= i < part.len() implies 0x20 <= #[trigger] part[i] < 0x7F by {
                assert(crate::hypervisor::printable(part[i]));
            }
        }
    }
}

proof fn lemma_before_nul(part: Seq<u8>, rest: Seq<u8>)
    requires
        !part.contains(0),
    ensures
        crate::bytes::before_nul(part + seq![0u8] + rest) == part,
    decreases part.len(),
{
    let table = part + seq![0u8] + rest;
    if part.len() > 0 {
        assert(part[0] != 0) by {
            if part[0] == 0 {
                assert(part.contains(0));
            }
        }
        let tail = part.skip(1);
        assert(!tail.contains(0)) by {
            if tail.contains(0) {
                let i = choose|i: int| 0 <= i < tail.len() && tail[i] == 0;
                assert(part[i + 1] == 0);
            }
        }
        lemma_before_nul(tail, rest);
        assert(table.skip(1) =~= tail + seq![0u8] + rest);
        assert(seq![part[0]] + tail =~= part);
    } else {
        assert(table[0] == 0);
        assert(part =~= Seq::empty());
    }
}

/// A process that has probed waits ten seconds for the next probe, counted
/// from the last one; one that has not, or that was told not to wait, does
/// not. The wait is told in whole seconds that cover it.
pub proof fn probes_are_ten_seconds_apart(gate: Gate, last: u64, now: u64)
    ensures
        gate.last_ns is None || !gate.cooldown ==> gate.remaining(now) == 0,
        gate.cooldown && gate.last_ns == Some(last) && now >= last ==> gate.remaining(now) == (
        if now - last < 10_000_000_000 {
            10_000_000_000 - (now - last)
        } else {
            0
        }),
        gate.cooldown && gate.last_ns == Some(last) && now < last ==> gate.remaining(now)
            == 10_000_000_000,
        crate::reprobe::seconds_for(gate.remaining(now)) * 1_000_000_000 >= gate.remaining(now),
        (crate::reprobe::seconds_for(gate.remaining(now)) - 1) * 1_000_000_000 < gate.remaining(
            now,
        ),
{
}

/// One line sums a finding up: the name, how sure it is and what it means for
/// the timings, with the trap's cost where that is part of the evidence. Bare
/// metal is called native.
pub proof fn the_summary_names_the_finding(r: ReportView)
    ensures
        r.confidence is Absent ==> crate::hypervisor::summary_text(r) == "native ("@
            + r.timing_impact.shown() + ")"@,
        !(r.confidence is Absent) && (r.exit_cost matches Some(cost) ==> !cost.suggests_exit)
            ==> crate::hypervisor::summary_text(r) == r.hypervisor.shown() + " ["@
            + r.confidence.shown() + ", "@ + r.timing_impact.shown() + "]"@,
        !(r.confidence is Absent) && (r.exit_cost matches Some(cost) && cost.suggests_exit)
            ==> crate::hypervisor::summary_text(r) == r.hypervisor.shown() + " ["@
            + r.confidence.shown() + ", "@ + r.timing_impact.shown() + "]"@ + " exit≈"@
            + crate::text::decimal(r.exit_cost->0.trap_cycles as int) + " cyc"@,
{
}

} // verus!
