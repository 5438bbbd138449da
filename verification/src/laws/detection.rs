//! What is said of the platform, and on what evidence.
use crate::arch::x86::{CpuidTable, Registers};
use crate::hypervisor::{
    Confidence, DetectionSource, DmiView, Evidence, ExitCost, Hypervisor, HypervisorView,
    ProcessorEvidence, ReportView, TimingImpact,
};
use vstd::arithmetic::power2::*;
use vstd::prelude::*;

verus! {

proof fn lemma_signature_texts(s: Seq<u8>)
    ensures
        crate::laws::spells(s, "KVMKVMKVM\0\0\0"@) <==> s == crate::bytes::ascii("KVMKVMKVM\0\0\0"@),
        crate::laws::spells(s, "TCGTCGTCGTCG"@) <==> s == crate::bytes::ascii("TCGTCGTCGTCG"@),
        crate::laws::spells(s, "VMwareVMware"@) <==> s == crate::bytes::ascii("VMwareVMware"@),
        crate::laws::spells(s, "Microsoft Hv"@) <==> s == crate::bytes::ascii("Microsoft Hv"@),
        crate::laws::spells(s, "XenVMMXenVMM"@) <==> s == crate::bytes::ascii("XenVMMXenVMM"@),
        crate::laws::spells(s, "VBoxVBoxVBox"@) <==> s == crate::bytes::ascii("VBoxVBoxVBox"@),
        crate::laws::spells(s, "prl hyperv  "@) <==> s == crate::bytes::ascii("prl hyperv  "@),
        crate::laws::spells(s, " lrpepyh vr "@) <==> s == crate::bytes::ascii(" lrpepyh vr "@),
        crate::laws::spells(s, "bhyve bhyve "@) <==> s == crate::bytes::ascii("bhyve bhyve "@),
        crate::laws::spells(s, "ACRNACRNACRN"@) <==> s == crate::bytes::ascii("ACRNACRNACRN"@),
        crate::laws::spells(s, "Jailhouse\0\0\0"@) <==> s == crate::bytes::ascii("Jailhouse\0\0\0"@),
        crate::laws::spells(s, "Apple VZ\0\0\0\0"@) <==> s == crate::bytes::ascii("Apple VZ\0\0\0\0"@),
        crate::laws::spells(s, "QNXQVMBSQG\0\0"@) <==> s == crate::bytes::ascii("QNXQVMBSQG\0\0"@),
        crate::laws::spells(s, "MicrosoftXTA"@) <==> s == crate::bytes::ascii("MicrosoftXTA"@),
{
    reveal_strlit("KVMKVMKVM\0\0\0");
    reveal_strlit("TCGTCGTCGTCG");
    reveal_strlit("VMwareVMware");
    reveal_strlit("Microsoft Hv");
    reveal_strlit("XenVMMXenVMM");
    reveal_strlit("VBoxVBoxVBox");
    reveal_strlit("prl hyperv  ");
    reveal_strlit(" lrpepyh vr ");
    reveal_strlit("bhyve bhyve ");
    reveal_strlit("ACRNACRNACRN");
    reveal_strlit("Jailhouse\0\0\0");
    reveal_strlit("Apple VZ\0\0\0\0");
    reveal_strlit("QNXQVMBSQG\0\0");
    reveal_strlit("MicrosoftXTA");
    crate::laws::lemma_spells(s, "KVMKVMKVM\0\0\0"@);
    crate::laws::lemma_spells(s, "TCGTCGTCGTCG"@);
    crate::laws::lemma_spells(s, "VMwareVMware"@);
    crate::laws::lemma_spells(s, "Microsoft Hv"@);
    crate::laws::lemma_spells(s, "XenVMMXenVMM"@);
    crate::laws::lemma_spells(s, "VBoxVBoxVBox"@);
    crate::laws::lemma_spells(s, "prl hyperv  "@);
    crate::laws::lemma_spells(s, " lrpepyh vr "@);
    crate::laws::lemma_spells(s, "bhyve bhyve "@);
    crate::laws::lemma_spells(s, "ACRNACRNACRN"@);
    crate::laws::lemma_spells(s, "Jailhouse\0\0\0"@);
    crate::laws::lemma_spells(s, "Apple VZ\0\0\0\0"@);
    crate::laws::lemma_spells(s, "QNXQVMBSQG\0\0"@);
    crate::laws::lemma_spells(s, "MicrosoftXTA"@);
}

/// The first characters that tell the known signatures apart.
proof fn lemma_signatures_differ(s: Seq<u8>)
    ensures
        crate::laws::spells(s, "KVMKVMKVM\0\0\0"@) ==> s[0] == 0x4b,
        crate::laws::spells(s, "TCGTCGTCGTCG"@) ==> s[0] == 0x54,
        crate::laws::spells(s, "VMwareVMware"@) ==> s[0] == 0x56 && s[1] == 0x4d,
        crate::laws::spells(s, "Microsoft Hv"@) ==> s[0] == 0x4d && s[9] == 0x20,
        crate::laws::spells(s, "XenVMMXenVMM"@) ==> s[0] == 0x58,
        crate::laws::spells(s, "VBoxVBoxVBox"@) ==> s[0] == 0x56 && s[1] == 0x42,
        crate::laws::spells(s, "prl hyperv  "@) ==> s[0] == 0x70,
        crate::laws::spells(s, " lrpepyh vr "@) ==> s[0] == 0x20,
        crate::laws::spells(s, "bhyve bhyve "@) ==> s[0] == 0x62,
        crate::laws::spells(s, "ACRNACRNACRN"@) ==> s[0] == 0x41 && s[1] == 0x43,
        crate::laws::spells(s, "Jailhouse\0\0\0"@) ==> s[0] == 0x4a,
        crate::laws::spells(s, "Apple VZ\0\0\0\0"@) ==> s[0] == 0x41 && s[1] == 0x70,
        crate::laws::spells(s, "QNXQVMBSQG\0\0"@) ==> s[0] == 0x51,
        crate::laws::spells(s, "MicrosoftXTA"@) ==> s[0] == 0x4d && s[9] == 0x58,
{
    reveal_strlit("KVMKVMKVM\0\0\0");
    reveal_strlit("TCGTCGTCGTCG");
    reveal_strlit("VMwareVMware");
    reveal_strlit("Microsoft Hv");
    reveal_strlit("XenVMMXenVMM");
    reveal_strlit("VBoxVBoxVBox");
    reveal_strlit("prl hyperv  ");
    reveal_strlit(" lrpepyh vr ");
    reveal_strlit("bhyve bhyve ");
    reveal_strlit("ACRNACRNACRN");
    reveal_strlit("Jailhouse\0\0\0");
    reveal_strlit("Apple VZ\0\0\0\0");
    reveal_strlit("QNXQVMBSQG\0\0");
    reveal_strlit("MicrosoftXTA");
}

/// Each published signature names its own hypervisor and no other one does:
/// emulation in particular is named by QEMU's own signature alone. A
/// signature outside the published ones names nothing.
pub proof fn each_signature_names_its_own(s: Seq<u8>)
    ensures
        crate::hypervisor::signed_by(s) == Some(HypervisorView::Kvm) <==> crate::laws::spells(
            s,
            "KVMKVMKVM\0\0\0"@,
        ),
        crate::hypervisor::signed_by(s) == Some(HypervisorView::QemuTcg) <==> crate::laws::spells(
            s,
            "TCGTCGTCGTCG"@,
        ),
        crate::hypervisor::signed_by(s) == Some(HypervisorView::VMware) <==> crate::laws::spells(
            s,
            "VMwareVMware"@,
        ),
        crate::hypervisor::signed_by(s) == Some(HypervisorView::HyperV) <==> crate::laws::spells(
            s,
            "Microsoft Hv"@,
        ) || crate::laws::spells(s, "MicrosoftXTA"@),
        crate::hypervisor::signed_by(s) == Some(HypervisorView::Xen) <==> crate::laws::spells(
            s,
            "XenVMMXenVMM"@,
        ),
        crate::hypervisor::signed_by(s) == Some(HypervisorView::VirtualBox)
            <==> crate::laws::spells(s, "VBoxVBoxVBox"@),
        crate::hypervisor::signed_by(s) == Some(HypervisorView::Parallels) <==> crate::laws::spells(
            s,
            "prl hyperv  "@,
        ) || crate::laws::spells(s, " lrpepyh vr "@),
        crate::hypervisor::signed_by(s) == Some(HypervisorView::Bhyve) <==> crate::laws::spells(
            s,
            "bhyve bhyve "@,
        ),
        crate::hypervisor::signed_by(s) == Some(HypervisorView::Acrn) <==> crate::laws::spells(
            s,
            "ACRNACRNACRN"@,
        ),
        crate::hypervisor::signed_by(s) == Some(HypervisorView::Jailhouse) <==> crate::laws::spells(
            s,
            "Jailhouse\0\0\0"@,
        ),
        crate::hypervisor::signed_by(s) == Some(HypervisorView::AppleVz) <==> crate::laws::spells(
            s,
            "Apple VZ\0\0\0\0"@,
        ),
        crate::hypervisor::signed_by(s) == Some(HypervisorView::Qnx) <==> crate::laws::spells(
            s,
            "QNXQVMBSQG\0\0"@,
        ),
        crate::hypervisor::signed_by(s) matches Some(h) ==> !(h is Absent || h is Wsl || h is Other),
{
    lemma_signature_texts(s);
    lemma_signatures_differ(s);
}

/// Whether the three registers of a hypervisor leaf spell a text of twelve
/// characters: EBX, ECX, EDX, each low byte first.
pub open spec fn leaf_spells(r: Registers, text: Seq<char>) -> bool {
    &&& text.len() == 12
    &&& (r.ebx % 0x100) as int == text[0] as int
    &&& (r.ebx / 0x100 % 0x100) as int == text[1] as int
    &&& (r.ebx / 0x1_0000 % 0x100) as int == text[2] as int
    &&& (r.ebx / 0x100_0000) as int == text[3] as int
    &&& (r.ecx % 0x100) as int == text[4] as int
    &&& (r.ecx / 0x100 % 0x100) as int == text[5] as int
    &&& (r.ecx / 0x1_0000 % 0x100) as int == text[6] as int
    &&& (r.ecx / 0x100_0000) as int == text[7] as int
    &&& (r.edx % 0x100) as int == text[8] as int
    &&& (r.edx / 0x100 % 0x100) as int == text[9] as int
    &&& (r.edx / 0x1_0000 % 0x100) as int == text[10] as int
    &&& (r.edx / 0x100_0000) as int == text[11] as int
}

proof fn lemma_leaf_spells(r: Registers, text: Seq<char>)
    requires
        plain(text),
    ensures
        leaf_spells(r, text) <==> crate::laws::spells(
            crate::hypervisor::leaf_signature(r),
            text,
        ),
{
    let s = crate::hypervisor::leaf_signature(r);
    assert(s.len() == 12);
    assert(s[0] == (r.ebx % 0x100) as u8);
    assert(s[1] == (r.ebx / 0x100 % 0x100) as u8);
    assert(s[2] == (r.ebx / 0x1_0000 % 0x100) as u8);
    assert(s[3] == (r.ebx / 0x100_0000) as u8);
    assert(s[4] == (r.ecx % 0x100) as u8);
    assert(s[5] == (r.ecx / 0x100 % 0x100) as u8);
    assert(s[6] == (r.ecx / 0x1_0000 % 0x100) as u8);
    assert(s[7] == (r.ecx / 0x100_0000) as u8);
    assert(s[8] == (r.edx % 0x100) as u8);
    assert(s[9] == (r.edx / 0x100 % 0x100) as u8);
    assert(s[10] == (r.edx / 0x1_0000 % 0x100) as u8);
    assert(s[11] == (r.edx / 0x100_0000) as u8);
    if leaf_spells(r, text) {
        assert forall|i: int| 0 <= i < text.len() implies (#[trigger] s[i]) as int
            == text[i] as int by {
            if i == 0 {
            } else if i == 1 {
            } else if i == 2 {
            } else if i == 3 {
            } else if i == 4 {
            } else if i == 5 {
            } else if i == 6 {
            } else if i == 7 {
            } else if i == 8 {
            } else if i == 9 {
            } else if i == 10 {
            } else {
                assert(i == 11);
            }
        }
    }
}

proof fn lemma_before_nul_nonzero(b: Seq<u8>)
    ensures
        forall|i: int|
            0 <= i < crate::bytes::before_nul(b).len() ==> #[trigger] crate::bytes::before_nul(b)[i]
                != 0,
    decreases b.len(),
{
    if b.len() > 0 && b[0] != 0 {
        lemma_before_nul_nonzero(b.skip(1));
        let part = crate::bytes::before_nul(b);
        let rest = crate::bytes::before_nul(b.skip(1));
        assert forall|i: int| 0 <= i < part.len() implies #[trigger] part[i] != 0 by {
            if i > 0 {
                assert(part[i] == rest[i - 1]);
            }
        }
    }
}

/// A signature whose bytes are all printable or zero, and whose first is not
/// zero, can be shown.
proof fn lemma_shows(b: Seq<u8>)
    requires
        b.len() > 0,
        b[0] != 0,
        forall|i: int| 0 <= i < b.len() ==> (#[trigger] b[i]) == 0 || 0x20 <= b[i] <= 0x7E,
    ensures
        crate::hypervisor::signature_text(b) is Some,
{
    let part = crate::bytes::before_nul(b);
    crate::bytes::lemma_before_nul(b);
    lemma_before_nul_nonzero(b);
    assert(part.len() > 0);
    assert forall|i: int| 0 <= i < part.len() implies crate::hypervisor::visible(
        #[trigger] part[i],
    ) by {
        assert(part[i] == b[i]);
    }
}

/// Whether a report goes on from another: every source stays, and a
/// hypervisor that was named stays named. Only WSL may take the place of the
/// Hyper-V it runs on.
pub open spec fn goes_on(before: ReportView, after: ReportView) -> bool {
    &&& forall|source: DetectionSource|
        before.sources.contains(source) ==> #[trigger] after.sources.contains(source)
    &&& !(before.hypervisor is Absent) ==> after.hypervisor == before.hypervisor || (
    before.hypervisor is HyperV && after.hypervisor is Wsl)
    &&& before.hypervisor is Wsl ==> after.hypervisor is Wsl
}

proof fn lemma_goes_on(a: ReportView, b: ReportView, c: ReportView)
    requires
        goes_on(a, b),
        goes_on(b, c),
    ensures
        goes_on(a, c),
{
    assert forall|source: DetectionSource| a.sources.contains(source) implies
        #[trigger] c.sources.contains(source) by {
        assert(b.sources.contains(source));
    }
}

proof fn lemma_noting_goes_on(r: ReportView)
    ensures
        forall|source: DetectionSource| goes_on(r, #[trigger] r.noting(source)),
        forall|source: DetectionSource, hypervisor: HypervisorView|
            goes_on(r, #[trigger] r.finding(source, hypervisor)),
        forall|source: DetectionSource| (#[trigger] r.noting(source)).sources.contains(source),
        forall|source: DetectionSource, hypervisor: HypervisorView|
            (#[trigger] r.finding(source, hypervisor)).sources.contains(source),
{
    assert forall|source: DetectionSource| goes_on(r, #[trigger] r.noting(source))
        && r.noting(source).sources.contains(source) by {
        let after = r.noting(source);
        if !r.sources.contains(source) {
            assert(after.sources[r.sources.len() as int] == source);
            assert forall|other: DetectionSource| r.sources.contains(other) implies
                #[trigger] after.sources.contains(other) by {
                let i = choose|i: int| 0 <= i < r.sources.len() && r.sources[i] == other;
                assert(after.sources[i] == other);
            }
        }
    }
    assert forall|source: DetectionSource, hypervisor: HypervisorView|
        goes_on(r, #[trigger] r.finding(source, hypervisor)) && r.finding(
            source,
            hypervisor,
        ).sources.contains(source) by {
        assert(goes_on(r, r.noting(source)));
        assert(r.finding(source, hypervisor).sources == r.noting(source).sources);
    }
}

proof fn lemma_files_go_on(r: ReportView, f: crate::hypervisor::PlatformFiles)
    ensures
        goes_on(r, r.with_files(f)),
{
    let a = r.with_type(crate::hypervisor::text_of(f.hypervisor_type));
    lemma_noting_goes_on(r);
    assert(goes_on(r, a));
    let b = a.with_device_tree(crate::hypervisor::text_of(f.device_tree));
    lemma_noting_goes_on(a);
    lemma_goes_on(r, a, b);
    let c = b.with_release(crate::hypervisor::text_of(f.osrelease));
    lemma_noting_goes_on(b);
    assert(goes_on(b, b.noting(DetectionSource::ProcCpuinfo)));
    assert(goes_on(b, c));
    lemma_goes_on(r, b, c);
    let d = c.with_clocksource(crate::hypervisor::text_of(f.clocksource));
    lemma_noting_goes_on(c);
    lemma_goes_on(r, c, d);
    let d1 = if f.vmbus_devices {
        d.finding(DetectionSource::ParavirtualBus, HypervisorView::HyperV)
    } else {
        d
    };
    lemma_noting_goes_on(d);
    lemma_goes_on(r, d, d1);
    let d2 = if f.xen_directory {
        d1.finding(DetectionSource::ParavirtualBus, HypervisorView::Xen)
    } else {
        d1
    };
    lemma_noting_goes_on(d1);
    lemma_goes_on(r, d1, d2);
    let e = d.with_buses(f.vmbus_devices, f.xen_directory, f.virtio_devices);
    lemma_noting_goes_on(d2);
    assert(goes_on(d2, e));
    lemma_goes_on(r, d2, e);
    let g = e.with_cpuinfo(crate::hypervisor::text_of(f.cpuinfo));
    lemma_noting_goes_on(e);
    lemma_goes_on(r, e, g);
}

/// What stands of the evidence once the processor has been asked.
pub open spec fn asked(dmi: DmiView, e: Evidence) -> ReportView {
    ReportView::blank(dmi).with_processor(e.processor)
}

/// What the processor says of itself is what the whole detection goes on
/// from: no later evidence takes a source away or names another hypervisor.
pub proof fn the_processor_is_heard_first(dmi: DmiView, e: Evidence, cost: Option<ExitCost>)
    ensures
        goes_on(asked(dmi, e), crate::hypervisor::detected(dmi, e, cost)),
{
    let a = asked(dmi, e);
    let b = a.with_files(e.files);
    lemma_files_go_on(a, e.files);
    let c = match e.registry {
        Some(registry) => b.with_registry(registry),
        None => b,
    };
    lemma_noting_goes_on(b);
    lemma_goes_on(a, b, c);
    let d = match e.mac {
        Some(mac) => c.with_mac(mac.vmm_present, crate::hypervisor::text_of(mac.hw_model)),
        None => c,
    };
    lemma_noting_goes_on(c);
    lemma_goes_on(a, c, d);
    let f = d.with_dmi();
    lemma_noting_goes_on(d);
    lemma_goes_on(a, d, f);
    let g = f.with_exit_cost(cost);
    lemma_noting_goes_on(f);
    assert(goes_on(f, f.noting(DetectionSource::ExitCostTiming)));
    assert(goes_on(f, g));
    lemma_goes_on(a, f, g);
    let probe = match crate::hypervisor::text_of(e.module) {
        Some(text) => crate::hypervisor::module_report(text),
        None => None,
    };
    let h = g.with_module(probe);
    lemma_noting_goes_on(g);
    assert(goes_on(g, g.noting(DetectionSource::KernelModule)));
    assert(goes_on(g, h));
    lemma_goes_on(a, g, h);
    assert(goes_on(h, h.concluded()));
    lemma_goes_on(a, h, h.concluded());
}

/// Whether a text of twelve characters can be a signature: printable ones,
/// filled up with zeros.
spec fn plain(text: Seq<char>) -> bool {
    &&& text.len() == 12
    &&& text[0] as int != 0
    &&& forall|i: int|
        0 <= i < text.len() ==> (#[trigger] text[i]) as int == 0 || 0x20 <= text[i] as int <= 0x7E
}

proof fn lemma_plain()
    ensures
        plain("KVMKVMKVM\0\0\0"@),
        plain("VMwareVMware"@),
        plain("XenVMMXenVMM"@),
        plain("VBoxVBoxVBox"@),
        plain("prl hyperv  "@),
        plain(" lrpepyh vr "@),
        plain("bhyve bhyve "@),
        plain("ACRNACRNACRN"@),
        plain("Jailhouse\0\0\0"@),
        plain("Apple VZ\0\0\0\0"@),
        plain("QNXQVMBSQG\0\0"@),
        plain("TCGTCGTCGTCG"@),
        plain("Microsoft Hv"@),
        plain("MicrosoftXTA"@),
{
    reveal_strlit("KVMKVMKVM\0\0\0");
    reveal_strlit("VMwareVMware");
    reveal_strlit("XenVMMXenVMM");
    reveal_strlit("VBoxVBoxVBox");
    reveal_strlit("prl hyperv  ");
    reveal_strlit(" lrpepyh vr ");
    reveal_strlit("bhyve bhyve ");
    reveal_strlit("ACRNACRNACRN");
    reveal_strlit("Jailhouse\0\0\0");
    reveal_strlit("Apple VZ\0\0\0\0");
    reveal_strlit("QNXQVMBSQG\0\0");
    reveal_strlit("TCGTCGTCGTCG");
    reveal_strlit("Microsoft Hv");
    reveal_strlit("MicrosoftXTA");
}

proof fn lemma_signed_leaf(dmi: DmiView, e: Evidence, cost: Option<ExitCost>, cpu: CpuidTable, text: Seq<char>)
    requires
        e.processor == ProcessorEvidence::X86(cpu),
        leaf_spells(cpu.at(0x4000_0000, 0), text),
        plain(text),
        crate::hypervisor::signed_by(
            crate::hypervisor::leaf_signature(cpu.at(0x4000_0000, 0)),
        ) matches Some(h) && !(h is Absent),
    ensures
        ({
            let r = cpu.at(0x4000_0000, 0);
            let named = crate::hypervisor::signed_by(crate::hypervisor::leaf_signature(r))->0;
            let found = crate::hypervisor::detected(dmi, e, cost);
            &&& found.confidence is Confirmed
            &&& found.hypervisor == named || (named is HyperV && found.hypervisor is Wsl)
            &&& named is QemuTcg ==> found.timing_impact is Emulated
            &&& !(named is QemuTcg) ==> found.timing_impact is HardwareAssisted
            &&& found.sources.contains(DetectionSource::CpuidVendorLeaf)
        }),
{
    let r = cpu.at(0x4000_0000, 0);
    let s = crate::hypervisor::leaf_signature(r);
    lemma_leaf_spells(r, text);
    assert forall|i: int| 0 <= i < s.len() implies (#[trigger] s[i]) == 0 || 0x20 <= s[i] <= 0x7E by {
        assert(s[i] as int == text[i] as int);
    }
    assert(s[0] as int == text[0] as int);
    lemma_shows(s);
    let base = if crate::bytes::bit32(cpu.at(1, 0).ecx, 31) {
        ReportView::blank(dmi).noting(DetectionSource::CpuidFeatureBit)
    } else {
        ReportView::blank(dmi)
    };
    lemma_noting_goes_on(base);
    assert(base.noting(DetectionSource::CpuidVendorLeaf).sources.contains(
        DetectionSource::CpuidVendorLeaf,
    ));
    assert(asked(dmi, e).sources.contains(DetectionSource::CpuidVendorLeaf));
    the_processor_is_heard_first(dmi, e, cost);
    let found = crate::hypervisor::detected(dmi, e, cost);
    assert(found.sources.contains(DetectionSource::CpuidVendorLeaf));
    let i = choose|i: int|
        0 <= i < found.sources.len() && found.sources[i] == DetectionSource::CpuidVendorLeaf;
    assert(found.sources[i].declares());
    let before = ReportView::blank(dmi).with_platform(e).with_exit_cost(cost).with_module(
        match crate::hypervisor::text_of(e.module) {
            Some(text) => crate::hypervisor::module_report(text),
            None => None,
        },
    );
    assert(before.sources == found.sources);
    assert(before.sources[i].declares());
    assert(before.declared());
}

/// A guest whose hypervisor signs its `CPUID` leaf is told that hypervisor's
/// name, whatever else is found: a signature is a confirmed finding, the
/// counter is hardware's unless the signature is QEMU's own emulation, and
/// Hyper-V may turn out to be WSL.
pub proof fn a_signed_guest_is_told_its_host(
    dmi: DmiView,
    e: Evidence,
    cost: Option<ExitCost>,
    cpu: CpuidTable,
)
    requires
        e.processor == ProcessorEvidence::X86(cpu),
    ensures
        ({
            let r = cpu.at(0x4000_0000, 0);
            let found = crate::hypervisor::detected(dmi, e, cost);
            &&& leaf_spells(r, "KVMKVMKVM\0\0\0"@) ==> found.hypervisor is Kvm && found.confidence is Confirmed
                && found.timing_impact is HardwareAssisted
            &&& leaf_spells(r, "VMwareVMware"@) ==> found.hypervisor is VMware && found.confidence is Confirmed
                && found.timing_impact is HardwareAssisted
            &&& leaf_spells(r, "XenVMMXenVMM"@) ==> found.hypervisor is Xen && found.confidence is Confirmed
                && found.timing_impact is HardwareAssisted
            &&& leaf_spells(r, "VBoxVBoxVBox"@) ==> found.hypervisor is VirtualBox && found.confidence is Confirmed
                && found.timing_impact is HardwareAssisted
            &&& leaf_spells(r, "prl hyperv  "@) ==> found.hypervisor is Parallels && found.confidence is Confirmed
                && found.timing_impact is HardwareAssisted
            &&& leaf_spells(r, " lrpepyh vr "@) ==> found.hypervisor is Parallels && found.confidence is Confirmed
                && found.timing_impact is HardwareAssisted
            &&& leaf_spells(r, "bhyve bhyve "@) ==> found.hypervisor is Bhyve && found.confidence is Confirmed
                && found.timing_impact is HardwareAssisted
            &&& leaf_spells(r, "ACRNACRNACRN"@) ==> found.hypervisor is Acrn && found.confidence is Confirmed
                && found.timing_impact is HardwareAssisted
            &&& leaf_spells(r, "Jailhouse\0\0\0"@) ==> found.hypervisor is Jailhouse && found.confidence is Confirmed
                && found.timing_impact is HardwareAssisted
            &&& leaf_spells(r, "Apple VZ\0\0\0\0"@) ==> found.hypervisor is AppleVz && found.confidence is Confirmed
                && found.timing_impact is HardwareAssisted
            &&& leaf_spells(r, "QNXQVMBSQG\0\0"@) ==> found.hypervisor is Qnx && found.confidence is Confirmed
                && found.timing_impact is HardwareAssisted
            &&& leaf_spells(r, "TCGTCGTCGTCG"@) ==> found.hypervisor is QemuTcg
                && found.confidence is Confirmed && found.timing_impact is Emulated
            &&& leaf_spells(r, "Microsoft Hv"@) || leaf_spells(r, "MicrosoftXTA"@) ==> (
            found.hypervisor is HyperV || found.hypervisor is Wsl) && found.confidence is Confirmed
                && found.timing_impact is HardwareAssisted
        }),
{
    let r = cpu.at(0x4000_0000, 0);
    let s = crate::hypervisor::leaf_signature(r);
    each_signature_names_its_own(s);
    lemma_plain();
    lemma_leaf_spells(r, "KVMKVMKVM\0\0\0"@);
    lemma_leaf_spells(r, "VMwareVMware"@);
    lemma_leaf_spells(r, "XenVMMXenVMM"@);
    lemma_leaf_spells(r, "VBoxVBoxVBox"@);
    lemma_leaf_spells(r, "prl hyperv  "@);
    lemma_leaf_spells(r, " lrpepyh vr "@);
    lemma_leaf_spells(r, "bhyve bhyve "@);
    lemma_leaf_spells(r, "ACRNACRNACRN"@);
    lemma_leaf_spells(r, "Jailhouse\0\0\0"@);
    lemma_leaf_spells(r, "Apple VZ\0\0\0\0"@);
    lemma_leaf_spells(r, "QNXQVMBSQG\0\0"@);
    lemma_leaf_spells(r, "TCGTCGTCGTCG"@);
    lemma_leaf_spells(r, "Microsoft Hv"@);
    lemma_leaf_spells(r, "MicrosoftXTA"@);
    if leaf_spells(r, "KVMKVMKVM\0\0\0"@) {
        lemma_signed_leaf(dmi, e, cost, cpu, "KVMKVMKVM\0\0\0"@);
    }
    if leaf_spells(r, "VMwareVMware"@) {
        lemma_signed_leaf(dmi, e, cost, cpu, "VMwareVMware"@);
    }
    if leaf_spells(r, "XenVMMXenVMM"@) {
        lemma_signed_leaf(dmi, e, cost, cpu, "XenVMMXenVMM"@);
    }
    if leaf_spells(r, "VBoxVBoxVBox"@) {
        lemma_signed_leaf(dmi, e, cost, cpu, "VBoxVBoxVBox"@);
    }
    if leaf_spells(r, "prl hyperv  "@) {
        lemma_signed_leaf(dmi, e, cost, cpu, "prl hyperv  "@);
    }
    if leaf_spells(r, " lrpepyh vr "@) {
        lemma_signed_leaf(dmi, e, cost, cpu, " lrpepyh vr "@);
    }
    if leaf_spells(r, "bhyve bhyve "@) {
        lemma_signed_leaf(dmi, e, cost, cpu, "bhyve bhyve "@);
    }
    if leaf_spells(r, "ACRNACRNACRN"@) {
        lemma_signed_leaf(dmi, e, cost, cpu, "ACRNACRNACRN"@);
    }
    if leaf_spells(r, "Jailhouse\0\0\0"@) {
        lemma_signed_leaf(dmi, e, cost, cpu, "Jailhouse\0\0\0"@);
    }
    if leaf_spells(r, "Apple VZ\0\0\0\0"@) {
        lemma_signed_leaf(dmi, e, cost, cpu, "Apple VZ\0\0\0\0"@);
    }
    if leaf_spells(r, "QNXQVMBSQG\0\0"@) {
        lemma_signed_leaf(dmi, e, cost, cpu, "QNXQVMBSQG\0\0"@);
    }
    if leaf_spells(r, "TCGTCGTCGTCG"@) {
        lemma_signed_leaf(dmi, e, cost, cpu, "TCGTCGTCGTCG"@);
    }
    if leaf_spells(r, "Microsoft Hv"@) {
        lemma_signed_leaf(dmi, e, cost, cpu, "Microsoft Hv"@);
    }
    if leaf_spells(r, "MicrosoftXTA"@) {
        lemma_signed_leaf(dmi, e, cost, cpu, "MicrosoftXTA"@);
    }
}

/// A guest's feature bit, bit 31 of ECX in leaf 1, is a declaration: with it
/// set the platform is confirmed to be virtual, whatever else is found.
pub proof fn the_feature_bit_confirms(
    dmi: DmiView,
    e: Evidence,
    cost: Option<ExitCost>,
    cpu: CpuidTable,
)
    requires
        e.processor == ProcessorEvidence::X86(cpu),
        crate::laws::holds(cpu.at(1, 0).ecx as int, 0x8000_0000),
    ensures
        crate::hypervisor::detected(dmi, e, cost).confidence is Confirmed,
        !(crate::hypervisor::detected(dmi, e, cost).timing_impact is Native),
        crate::hypervisor::detected(dmi, e, cost).sources.contains(
            DetectionSource::CpuidFeatureBit,
        ),
{
    lemma2_to64();
    crate::laws::lemma_bit32(cpu.at(1, 0).ecx, 31);
    let blank = ReportView::blank(dmi);
    let base = blank.noting(DetectionSource::CpuidFeatureBit);
    lemma_noting_goes_on(blank);
    lemma_noting_goes_on(base);
    assert(base.sources.contains(DetectionSource::CpuidFeatureBit));
    assert(goes_on(base, base.noting(DetectionSource::CpuidVendorLeaf)));
    assert(base.noting(DetectionSource::CpuidVendorLeaf).sources.contains(
        DetectionSource::CpuidFeatureBit,
    ));
    assert(asked(dmi, e).sources.contains(DetectionSource::CpuidFeatureBit));
    the_processor_is_heard_first(dmi, e, cost);
    lemma_declared(dmi, e, cost, DetectionSource::CpuidFeatureBit);
}

proof fn lemma_declared(dmi: DmiView, e: Evidence, cost: Option<ExitCost>, source: DetectionSource)
    requires
        source.declares(),
        crate::hypervisor::detected(dmi, e, cost).sources.contains(source),
    ensures
        crate::hypervisor::detected(dmi, e, cost).confidence is Confirmed,
        !(crate::hypervisor::detected(dmi, e, cost).timing_impact is Native),
{
    let before = ReportView::blank(dmi).with_platform(e).with_exit_cost(cost).with_module(
        match crate::hypervisor::text_of(e.module) {
            Some(text) => crate::hypervisor::module_report(text),
            None => None,
        },
    );
    let i = choose|i: int| 0 <= i < before.sources.len() && before.sources[i] == source;
    assert(before.sources[i].declares());
    assert(before.declared());
}

/// Whether nothing at all was found to look at.
pub open spec fn nothing_seen(dmi: DmiView, e: Evidence, cost: Option<ExitCost>) -> bool {
    &&& dmi.sys_vendor is None && dmi.product_name is None && dmi.bios_vendor is None
    &&& e.files.hypervisor_type is None && e.files.device_tree is None
    &&& e.files.osrelease is None && e.files.clocksource is None
    &&& !e.files.vmbus_devices && !e.files.xen_directory && !e.files.virtio_devices
    &&& e.files.cpuinfo is None && e.registry is None && e.mac is None && e.module is None
    &&& cost matches Some(cost) ==> !cost.suggests_exit
}

/// With nothing seen, and a processor that neither sets the guest bit nor
/// signs a hypervisor leaf, nor ticks at a frequency that virtual timers
/// invented, the machine is bare metal.
pub proof fn nothing_seen_is_bare_metal(dmi: DmiView, e: Evidence, cost: Option<ExitCost>)
    requires
        nothing_seen(dmi, e, cost),
        match e.processor {
            ProcessorEvidence::X86(cpu) => {
                &&& !crate::laws::holds(cpu.at(1, 0).ecx as int, 0x8000_0000)
                &&& cpu.at(0x4000_0000, 0).ebx % 0x100 == 0
                &&& cpu.at(0x4000_0100, 0).ebx % 0x100 == 0
                &&& cpu.at(0x4000_0200, 0).ebx % 0x100 == 0
            },
            ProcessorEvidence::Arm(arm) => arm.cntfrq != 62_500_000 && arm.cntfrq
                != 1_000_000_000 && arm.midr_text is None,
            ProcessorEvidence::Other => true,
        },
    ensures
        ({
            let found = crate::hypervisor::detected(dmi, e, cost);
            &&& found.hypervisor is Absent
            &&& found.confidence is Absent
            &&& found.timing_impact is Native
            &&& found.sources.len() == 0
        }),
{
    let blank = ReportView::blank(dmi);
    if let ProcessorEvidence::X86(cpu) = e.processor {
        lemma2_to64();
        crate::laws::lemma_bit32(cpu.at(1, 0).ecx, 31);
        lemma_unsigned_leaf(cpu.at(0x4000_0000, 0));
        lemma_unsigned_leaf(cpu.at(0x4000_0100, 0));
        lemma_unsigned_leaf(cpu.at(0x4000_0200, 0));
    }
    let a = asked(dmi, e);
    assert(a.sources.len() == 0 && a.hypervisor is Absent);
    assert(a.dmi == dmi);
    let b = a.with_files(e.files);
    assert(b == a);
    assert(a.with_dmi() == a);
    let c = a.with_exit_cost(cost);
    assert(c.sources.len() == 0);
    assert(!c.declared() && !c.inferred());
}

proof fn lemma_unsigned_leaf(r: Registers)
    requires
        r.ebx % 0x100 == 0,
    ensures
        crate::hypervisor::signature_text(crate::hypervisor::leaf_signature(r)) is None,
{
    let s = crate::hypervisor::leaf_signature(r);
    assert(s[0] == 0);
    assert(crate::bytes::before_nul(s).len() == 0);
}

/// On AArch64 a counter of a billion ticks a second is emulation, and one of
/// 62.5 million is QEMU's board: both are inferences. The hardware's own
/// frequencies say nothing.
pub proof fn invented_frequencies_give_a_guest_away(
    dmi: DmiView,
    e: Evidence,
    cost: Option<ExitCost>,
    arm: crate::hypervisor::ArmEvidence,
)
    requires
        e.processor == ProcessorEvidence::Arm(arm),
    ensures
        ({
            let found = crate::hypervisor::detected(dmi, e, cost);
            &&& arm.cntfrq == 1_000_000_000 ==> found.hypervisor is QemuTcg
                && found.timing_impact is Emulated && found.sources.contains(
                DetectionSource::ArmCounterFrequency,
            )
            &&& arm.cntfrq == 62_500_000 ==> found.hypervisor == HypervisorView::Other(
                "qemu/kvm (virt board)"@,
            ) && found.timing_impact is HardwareAssisted && found.sources.contains(
                DetectionSource::ArmCounterFrequency,
            )
            &&& arm.cntfrq != 1_000_000_000 && arm.cntfrq != 62_500_000 ==> !asked(
                dmi,
                e,
            ).sources.contains(DetectionSource::ArmCounterFrequency)
        }),
{
    let blank = ReportView::blank(dmi);
    lemma_noting_goes_on(blank);
    the_processor_is_heard_first(dmi, e, cost);
    let a = asked(dmi, e);
    let midr = crate::hypervisor::midr_value(crate::hypervisor::text_of(arm.midr_text));
    match crate::hypervisor::frequency_signature(arm.cntfrq) {
        Some(h) => {
            let timed = blank.finding(DetectionSource::ArmCounterFrequency, h);
            assert(timed.sources.contains(DetectionSource::ArmCounterFrequency));
            let named = ReportView {
                arm_counter_hz: arm.cntfrq,
                arm_ctr_el0: arm.ctr_el0,
                arm_midr_el1: match midr {
                    Some(midr) => midr,
                    None => timed.arm_midr_el1,
                },
                ..timed
            };
            lemma_noting_goes_on(named);
            assert(a.sources.contains(DetectionSource::ArmCounterFrequency));
            assert(a.hypervisor == h);
            let found = crate::hypervisor::detected(dmi, e, cost);
            assert(found.sources.contains(DetectionSource::ArmCounterFrequency));
            assert(found.hypervisor == h);
            let i = choose|i: int|
                0 <= i < found.sources.len() && found.sources[i]
                    == DetectionSource::ArmCounterFrequency;
            assert(!found.sources[i].declares());
            let before = ReportView::blank(dmi).with_platform(e).with_exit_cost(cost).with_module(
                match crate::hypervisor::text_of(e.module) {
                    Some(text) => crate::hypervisor::module_report(text),
                    None => None,
                },
            );
            assert(before.sources[i] == found.sources[i]);
            assert(before.inferred());
        },
        None => {
            let named = ReportView {
                arm_counter_hz: arm.cntfrq,
                arm_ctr_el0: arm.ctr_el0,
                arm_midr_el1: match midr {
                    Some(midr) => midr,
                    None => blank.arm_midr_el1,
                },
                ..blank
            };
            let noted = named.noting(DetectionSource::ArmMidr);
            assert(noted.sources =~= seq![DetectionSource::ArmMidr]);
            assert(!noted.sources.contains(DetectionSource::ArmCounterFrequency));
        },
    }
}

/// A processor identification with no implementer is one that nothing that
/// shipped has: bits 24 to 31 of `MIDR_EL1` are zero exactly then.
pub proof fn an_implementer_of_zero_is_no_processor(midr: u64)
    ensures
        crate::hypervisor::null_implementer(midr) is Some <==> midr as int / 0x100_0000 % 0x100 == 0,
{
    let shifted = midr >> 24;
    assert(shifted == midr / 0x100_0000) by (bit_vector)
        requires
            shifted == midr >> 24,
    ;
    assert(shifted & 0xFF == shifted % 0x100) by (bit_vector);
}

/// Which virtual platform a firmware string names, whatever its capitals: the
/// first of these that it mentions, in this order, and none where it mentions
/// none of them.
pub proof fn firmware_strings_name_platforms(text: Seq<char>)
    ensures
        ({
            let named = crate::hypervisor::identified_by(Some(text));
            let vmware = crate::laws::text::mentions(text, "vmware"@);
            let vbox = crate::laws::text::mentions(text, "virtualbox"@)
                || crate::laws::text::mentions(text, "innotek"@);
            let parallels = crate::laws::text::mentions(text, "parallels"@);
            let xen = crate::laws::text::mentions(text, "xen"@);
            let bhyve = crate::laws::text::mentions(text, "bhyve"@);
            let kvm = crate::laws::text::mentions(text, "kvm"@) || crate::laws::text::mentions(
                text,
                "qemu"@,
            );
            let bochs = crate::laws::text::mentions(text, "bochs"@);
            let apple = crate::laws::text::mentions(text, "apple virtualization"@)
                || crate::laws::text::mentions(text, "virtualmac"@);
            &&& named == Some(HypervisorView::VMware) <==> vmware
            &&& named == Some(HypervisorView::VirtualBox) <==> vbox && !vmware
            &&& named == Some(HypervisorView::Parallels) <==> parallels && !vbox && !vmware
            &&& named == Some(HypervisorView::Xen) <==> xen && !parallels && !vbox && !vmware
            &&& named == Some(HypervisorView::Bhyve) <==> bhyve && !xen && !parallels && !vbox
                && !vmware
            &&& named == Some(HypervisorView::Kvm) <==> kvm && !bhyve && !xen && !parallels && !vbox
                && !vmware
            &&& named == Some(HypervisorView::QemuTcg) <==> bochs && !kvm && !bhyve && !xen
                && !parallels && !vbox && !vmware
            &&& named == Some(HypervisorView::AppleVz) <==> apple && !bochs && !kvm && !bhyve
                && !xen && !parallels && !vbox && !vmware
            &&& named is None <==> !(apple || bochs || kvm || bhyve || xen || parallels || vbox
                || vmware)
        }),
        crate::hypervisor::identified_by(None) is None,
{
    crate::laws::text::small_letters_hold_what_is_mentioned(text, "vmware"@);
    crate::laws::text::small_letters_hold_what_is_mentioned(text, "virtualbox"@);
    crate::laws::text::small_letters_hold_what_is_mentioned(text, "innotek"@);
    crate::laws::text::small_letters_hold_what_is_mentioned(text, "parallels"@);
    crate::laws::text::small_letters_hold_what_is_mentioned(text, "xen"@);
    crate::laws::text::small_letters_hold_what_is_mentioned(text, "bhyve"@);
    crate::laws::text::small_letters_hold_what_is_mentioned(text, "kvm"@);
    crate::laws::text::small_letters_hold_what_is_mentioned(text, "qemu"@);
    crate::laws::text::small_letters_hold_what_is_mentioned(text, "bochs"@);
    crate::laws::text::small_letters_hold_what_is_mentioned(text, "apple virtualization"@);
    crate::laws::text::small_letters_hold_what_is_mentioned(text, "virtualmac"@);
}

/// Of the firmware strings the product's name is asked first, then the
/// system's vendor, then the BIOS's: what the first that names a platform
/// names is what is found.
pub proof fn the_product_is_asked_first(dmi: DmiView)
    ensures
        ({
            let p = crate::hypervisor::identified_by(dmi.product_name);
            let v = crate::hypervisor::identified_by(dmi.sys_vendor);
            let b = crate::hypervisor::identified_by(dmi.bios_vendor);
            &&& p is Some ==> dmi.identified() == p
            &&& p is None && v is Some ==> dmi.identified() == v
            &&& p is None && v is None ==> dmi.identified() == b
        }),
{
}

/// A clocksource that only a hypervisor offers names it, and any other name
/// none.
pub proof fn clocksources_name_their_host(clocksource: Seq<char>)
    ensures
        ({
            let named = crate::hypervisor::clocksource_names(clocksource);
            &&& named == Some(HypervisorView::Kvm) <==> clocksource == "kvm-clock"@
            &&& named == Some(HypervisorView::Xen) <==> clocksource == "xen"@
            &&& named == Some(HypervisorView::VMware) <==> clocksource == "vmware"@
            &&& named == Some(HypervisorView::HyperV) <==> clocksource.len() >= 6
                && clocksource.take(6) == "hyperv"@
            &&& named is Some ==> named->0 is Kvm || named->0 is Xen || named->0 is VMware
                || named->0 is HyperV
        }),
{
    reveal_strlit("kvm-clock");
    reveal_strlit("xen");
    reveal_strlit("vmware");
    reveal_strlit("hyperv");
    assert("kvm-clock"@.len() == 9 && "xen"@.len() == 3 && "vmware"@.len() == 6 && "hyperv"@.len()
        == 6);
    assert("kvm-clock"@[0] == 'k' && "vmware"@[0] == 'v' && "hyperv"@[0] == 'h');
    if clocksource.len() >= 6 {
        assert(clocksource.subrange(0, 6) =~= clocksource.take(6));
        assert(clocksource.take(6)[0] == clocksource[0]);
    }
}

/// Only three sources are inferences: a timed trap, an unusual timer
/// frequency and an unusual identification register. Every other one is the
/// platform's own word.
pub proof fn three_sources_are_inferences(source: DetectionSource)
    ensures
        source.declares() <==> source != DetectionSource::ExitCostTiming && source
            != DetectionSource::ArmCounterFrequency && source != DetectionSource::ArmMidr,
{
}

/// The verdict, from its sources and from whether a hypercall was accepted: a
/// declaration or a hypercall confirms, an inference alone is a suspicion,
/// and emulation is told apart from hardware's help whatever the evidence.
pub proof fn the_verdict_weighs_the_evidence(r: ReportView)
    ensures
        ({
            let c = r.concluded();
            let word = exists|i: int|
                0 <= i < r.sources.len() && (#[trigger] r.sources[i])
                    != DetectionSource::ExitCostTiming && r.sources[i]
                    != DetectionSource::ArmCounterFrequency && r.sources[i]
                    != DetectionSource::ArmMidr;
            let call = r.kernel matches Some(k) && (k.vmcall_ok == Some(true) || k.vmmcall_ok
                == Some(true) || k.hvc_ok == Some(true));
            &&& c.confidence is Confirmed <==> word || call
            &&& c.confidence is Suspected <==> r.sources.len() > 0 && !word && !call
            &&& c.confidence is Absent <==> r.sources.len() == 0 && !call
            &&& c.timing_impact is Emulated <==> r.hypervisor is QemuTcg
            &&& c.timing_impact is Native <==> !(r.hypervisor is QemuTcg) && r.sources.len() == 0
                && !call
            &&& c.hypervisor == r.hypervisor && c.sources == r.sources && c.exit_cost
                == r.exit_cost && c.signature == r.signature
        }),
{
    if r.declared() {
        let i = choose|i: int| 0 <= i < r.sources.len() && (#[trigger] r.sources[i]).declares();
        three_sources_are_inferences(r.sources[i]);
    }
    if r.inferred() {
        let i = choose|i: int| 0 <= i < r.sources.len() && !(#[trigger] r.sources[i]).declares();
        three_sources_are_inferences(r.sources[i]);
    }
    assert forall|i: int| 0 <= i < r.sources.len() implies (#[trigger] r.sources[i]).declares() == (
    r.sources[i] != DetectionSource::ExitCostTiming && r.sources[i]
        != DetectionSource::ArmCounterFrequency && r.sources[i] != DetectionSource::ArmMidr) by {
        three_sources_are_inferences(r.sources[i]);
    }
    if r.sources.len() > 0 {
        let first = r.sources[0];
        if first.declares() {
            assert(r.declared());
        } else {
            assert(r.inferred());
        }
    }
}

/// A trap suggests an exit exactly where it costs more than twenty baselines,
/// and there is a baseline to compare it with.
pub proof fn a_trap_of_more_than_twenty_baselines_exits(trap: u64, baseline: u64)
    ensures
        ExitCost::measured(trap, baseline).suggests_exit <==> baseline > 0 && trap > 20 * baseline,
        ExitCost::measured(trap, baseline).trap_cycles == trap,
        ExitCost::measured(trap, baseline).baseline_cycles == baseline,
{
}

/// A source is recorded once and in the order the sources were consulted; the
/// hypervisor is the one that was named first.
pub proof fn the_first_name_stays(r: ReportView, source: DetectionSource, h: HypervisorView)
    ensures
        ({
            let found = r.finding(source, h);
            &&& r.hypervisor is Absent ==> found.hypervisor == h
            &&& !(r.hypervisor is Absent) ==> found.hypervisor == r.hypervisor
            &&& r.sources.contains(source) ==> found.sources == r.sources
            &&& !r.sources.contains(source) ==> found.sources == r.sources.push(source)
        }),
{
}

/// What a report holds is what its view says it holds: a hypervisor is viewed
/// as itself.
pub proof fn a_hypervisor_is_viewed_as_itself(h: Hypervisor)
    ensures
        h is Absent <==> h@ is Absent,
        h is Kvm <==> h@ is Kvm,
        h is QemuTcg <==> h@ is QemuTcg,
        h is VMware <==> h@ is VMware,
        h is HyperV <==> h@ is HyperV,
        h is Xen <==> h@ is Xen,
        h is VirtualBox <==> h@ is VirtualBox,
        h is Parallels <==> h@ is Parallels,
        h is Bhyve <==> h@ is Bhyve,
        h is Acrn <==> h@ is Acrn,
        h is Jailhouse <==> h@ is Jailhouse,
        h is AppleVz <==> h@ is AppleVz,
        h is Qnx <==> h@ is Qnx,
        h is Wsl <==> h@ is Wsl,
        h matches Hypervisor::Other(text) ==> h@ == HypervisorView::Other(text@),
{
}

/// Each hypervisor is shown under its own name.
pub proof fn hypervisors_are_shown_by_name(h: HypervisorView)
    ensures
        h is Absent ==> h.shown() == "none"@,
        h is Kvm ==> h.shown() == "KVM"@,
        h is QemuTcg ==> h.shown() == "QEMU TCG"@,
        h is VMware ==> h.shown() == "VMware"@,
        h is HyperV ==> h.shown() == "Hyper-V"@,
        h is Xen ==> h.shown() == "Xen"@,
        h is VirtualBox ==> h.shown() == "VirtualBox"@,
        h is Parallels ==> h.shown() == "Parallels"@,
        h is Bhyve ==> h.shown() == "bhyve"@,
        h is Acrn ==> h.shown() == "ACRN"@,
        h is Jailhouse ==> h.shown() == "Jailhouse"@,
        h is AppleVz ==> h.shown() == "Apple Virtualization"@,
        h is Qnx ==> h.shown() == "QNX"@,
        h is Wsl ==> h.shown() == "WSL"@,
        h matches HypervisorView::Other(text) ==> h.shown() == text,
{
}

/// What the timings are worth is said of the impact that was found: physical
/// readings on bare metal, sound short intervals under hardware's help, and
/// no performance claims under emulation.
pub proof fn advice_follows_the_impact(impact: TimingImpact)
    ensures
        impact is Native ==> impact.shown() == "native"@ && impact.advised()
            == "Bare metal: counter readings are physical and nanosecond figures are meaningful."@,
        impact is HardwareAssisted ==> impact.shown() == "hardware-assisted"@ && impact.advised()
            == "Virtualized: short intervals are sound, but anything spanning a VM exit or steal time is not. Pin the vCPU and prefer minimum-of-N over the mean."@,
        impact is Emulated ==> impact.shown() == "emulated"@ && impact.advised()
            == "Emulated: the counter is synthesised, so nanosecond figures measure the emulator, not the workload. Use these numbers for correctness checks only, never for performance claims."@,
        Confidence::Absent.shown() == "none"@,
        Confidence::Suspected.shown() == "suspected"@,
        Confidence::Confirmed.shown() == "confirmed"@,
{
}

/// What a source is called tells where the evidence came from.
pub proof fn sources_are_shown_by_name(source: DetectionSource)
    ensures
        source is CpuidFeatureBit ==> source.shown() == "cpuid-feature-bit"@,
        source is CpuidVendorLeaf ==> source.shown() == "cpuid-vendor-leaf"@,
        source is ArmCounterFrequency ==> source.shown() == "arm-cntfrq-el0"@,
        source is ArmMidr ==> source.shown() == "arm-midr-el1"@,
        source is MacSysctl ==> source.shown() == "mac-sysctl"@,
        source is WindowsRegistry ==> source.shown() == "windows-registry"@,
        source is Dmi ==> source.shown() == "dmi"@,
        source is SysHypervisor ==> source.shown() == "sys-hypervisor"@,
        source is DeviceTree ==> source.shown() == "device-tree"@,
        source is ProcCpuinfo ==> source.shown() == "proc-cpuinfo"@,
        source is Clocksource ==> source.shown() == "clocksource"@,
        source is ParavirtualBus ==> source.shown() == "paravirtual-bus"@,
        source is KernelModule ==> source.shown() == "kernel-module"@,
        source is ExitCostTiming ==> source.shown() == "exit-cost-timing"@,
{
}

} // verus!
