//! Enrichment of a raw handle entry: the owner's two image paths and the
//! decoded names of the granted access rights.

use vstd::prelude::*;
use vstd::string::StringExecFns;

use crate::handle::SystemHandleEntry;

verus! {

/// Mathematical image of a `HandleInfo`.
pub struct HandleInfoView {
    pub handle_value: u16,
    pub nt_path: Seq<char>,
    pub win32_path: Seq<char>,
    pub access_rights: Seq<Seq<char>>,
}

/// Enrichment attached to one surviving handle entry: the owner's image paths
/// (empty when the owner could not be queried) and the decoded access rights.
pub struct HandleInfo {
    pub handle_value: u16,
    pub nt_path: String,
    pub win32_path: String,
    pub access_rights: Vec<String>,
}

impl View for HandleInfo {
    type V = HandleInfoView;

    open spec fn view(&self) -> HandleInfoView {
        HandleInfoView {
            handle_value: self.handle_value,
            nt_path: self.nt_path@,
            win32_path: self.win32_path@,
            access_rights: self.access_rights.deep_view(),
        }
    }
}

/// The ordered list of right names a granted-access mask decodes to. Known
/// bits map to their names, most generic first; unknown bits are dropped.
pub open spec fn spec_decode_access_mask(mask: u32) -> Seq<Seq<char>> {
    let s = Seq::<Seq<char>>::empty();
    let s = if mask & 0x80000000u32 != 0 {
        s.push("GENERIC_READ"@)
    } else {
        s
    };
    let s = if mask & 0x40000000u32 != 0 {
        s.push("GENERIC_WRITE"@)
    } else {
        s
    };
    let s = if mask & 0x20000000u32 != 0 {
        s.push("GENERIC_EXECUTE"@)
    } else {
        s
    };
    let s = if mask & 0x10000000u32 != 0 {
        s.push("GENERIC_ALL"@)
    } else {
        s
    };
    let s = if mask & 0x0001u32 != 0 {
        s.push("PROCESS_TERMINATE"@)
    } else {
        s
    };
    let s = if mask & 0x0002u32 != 0 {
        s.push("PROCESS_CREATE_THREAD"@)
    } else {
        s
    };
    let s = if mask & 0x0008u32 != 0 {
        s.push("PROCESS_VM_OPERATION"@)
    } else {
        s
    };
    let s = if mask & 0x0010u32 != 0 {
        s.push("PROCESS_VM_READ"@)
    } else {
        s
    };
    let s = if mask & 0x0020u32 != 0 {
        s.push("PROCESS_VM_WRITE"@)
    } else {
        s
    };
    let s = if mask & 0x0040u32 != 0 {
        s.push("PROCESS_DUP_HANDLE"@)
    } else {
        s
    };
    let s = if mask & 0x0080u32 != 0 {
        s.push("PROCESS_CREATE_PROCESS"@)
    } else {
        s
    };
    let s = if mask & 0x0100u32 != 0 {
        s.push("PROCESS_SET_QUOTA"@)
    } else {
        s
    };
    let s = if mask & 0x0200u32 != 0 {
        s.push("PROCESS_SET_INFORMATION"@)
    } else {
        s
    };
    let s = if mask & 0x0400u32 != 0 {
        s.push("PROCESS_QUERY_INFORMATION"@)
    } else {
        s
    };
    let s = if mask & 0x1000u32 != 0 {
        s.push("PROCESS_SUSPEND_RESUME"@)
    } else {
        s
    };
    s
}

/// Appends one right name, extending the decoded list by that name.
fn push_right(rights: &mut Vec<String>, name: &str)
    ensures
        final(rights).deep_view() == old(rights).deep_view().push(name@),
{
    rights.push(name.to_owned());
    proof {
        assert(rights.deep_view() =~~= old(rights).deep_view().push(name@));
    }
}

/// Decodes a granted-access mask to the readable names of its known bits.
pub fn decode_access_mask(access_mask: u32) -> (rights: Vec<String>)
    ensures
        rights.deep_view() == spec_decode_access_mask(access_mask),
{
    let mut rights: Vec<String> = Vec::new();
    proof {
        assert(rights.deep_view() =~~= Seq::<Seq<char>>::empty());
    }
    if access_mask & 0x80000000u32 != 0 {
        push_right(&mut rights, "GENERIC_READ");
    }
    if access_mask & 0x40000000u32 != 0 {
        push_right(&mut rights, "GENERIC_WRITE");
    }
    if access_mask & 0x20000000u32 != 0 {
        push_right(&mut rights, "GENERIC_EXECUTE");
    }
    if access_mask & 0x10000000u32 != 0 {
        push_right(&mut rights, "GENERIC_ALL");
    }
    if access_mask & 0x0001u32 != 0 {
        push_right(&mut rights, "PROCESS_TERMINATE");
    }
    if access_mask & 0x0002u32 != 0 {
        push_right(&mut rights, "PROCESS_CREATE_THREAD");
    }
    if access_mask & 0x0008u32 != 0 {
        push_right(&mut rights, "PROCESS_VM_OPERATION");
    }
    if access_mask & 0x0010u32 != 0 {
        push_right(&mut rights, "PROCESS_VM_READ");
    }
    if access_mask & 0x0020u32 != 0 {
        push_right(&mut rights, "PROCESS_VM_WRITE");
    }
    if access_mask & 0x0040u32 != 0 {
        push_right(&mut rights, "PROCESS_DUP_HANDLE");
    }
    if access_mask & 0x0080u32 != 0 {
        push_right(&mut rights, "PROCESS_CREATE_PROCESS");
    }
    if access_mask & 0x0100u32 != 0 {
        push_right(&mut rights, "PROCESS_SET_QUOTA");
    }
    if access_mask & 0x0200u32 != 0 {
        push_right(&mut rights, "PROCESS_SET_INFORMATION");
    }
    if access_mask & 0x0400u32 != 0 {
        push_right(&mut rights, "PROCESS_QUERY_INFORMATION");
    }
    if access_mask & 0x1000u32 != 0 {
        push_right(&mut rights, "PROCESS_SUSPEND_RESUME");
    }
    rights
}

/// Decoding an access mask is a pure function: equal masks decode to the
/// same ordered list of names.
pub proof fn lemma_decode_access_mask_deterministic(m1: u32, m2: u32)
    requires
        m1 == m2,
    ensures
        spec_decode_access_mask(m1) == spec_decode_access_mask(m2),
{
}

/// A mask granting both memory rights decodes to a list that carries both
/// their names: what a read-write cheat holds is always spelled out.
#[verifier::rlimit(100)]
pub proof fn lemma_decode_contains_read_write(mask: u32)
    requires
        mask & 0x30u32 == 0x30u32,
    ensures
        spec_decode_access_mask(mask).contains("PROCESS_VM_READ"@),
        spec_decode_access_mask(mask).contains("PROCESS_VM_WRITE"@),
{
    broadcast use vstd::seq_lib::group_seq_properties;

    assert(mask & 0x0010u32 != 0 && mask & 0x0020u32 != 0) by (bit_vector)
        requires
            mask & 0x30u32 == 0x30u32,
    ;
    let s0 = Seq::<Seq<char>>::empty();
    let s1 = if mask & 0x80000000u32 != 0 {
        s0.push("GENERIC_READ"@)
    } else {
        s0
    };
    let s2 = if mask & 0x40000000u32 != 0 {
        s1.push("GENERIC_WRITE"@)
    } else {
        s1
    };
    let s3 = if mask & 0x20000000u32 != 0 {
        s2.push("GENERIC_EXECUTE"@)
    } else {
        s2
    };
    let s4 = if mask & 0x10000000u32 != 0 {
        s3.push("GENERIC_ALL"@)
    } else {
        s3
    };
    let s5 = if mask & 0x0001u32 != 0 {
        s4.push("PROCESS_TERMINATE"@)
    } else {
        s4
    };
    let s6 = if mask & 0x0002u32 != 0 {
        s5.push("PROCESS_CREATE_THREAD"@)
    } else {
        s5
    };
    let s7 = if mask & 0x0008u32 != 0 {
        s6.push("PROCESS_VM_OPERATION"@)
    } else {
        s6
    };
    let s8 = s7.push("PROCESS_VM_READ"@);
    let s9 = s8.push("PROCESS_VM_WRITE"@);
    let s10 = if mask & 0x0040u32 != 0 {
        s9.push("PROCESS_DUP_HANDLE"@)
    } else {
        s9
    };
    let s11 = if mask & 0x0080u32 != 0 {
        s10.push("PROCESS_CREATE_PROCESS"@)
    } else {
        s10
    };
    let s12 = if mask & 0x0100u32 != 0 {
        s11.push("PROCESS_SET_QUOTA"@)
    } else {
        s11
    };
    let s13 = if mask & 0x0200u32 != 0 {
        s12.push("PROCESS_SET_INFORMATION"@)
    } else {
        s12
    };
    let s14 = if mask & 0x0400u32 != 0 {
        s13.push("PROCESS_QUERY_INFORMATION"@)
    } else {
        s13
    };
    let s15 = if mask & 0x1000u32 != 0 {
        s14.push("PROCESS_SUSPEND_RESUME"@)
    } else {
        s14
    };
    assert(spec_decode_access_mask(mask) == s15);
    assert(s8[s7.len() as int] == "PROCESS_VM_READ"@);
    assert(s8.contains("PROCESS_VM_READ"@));
    assert(s9[s8.len() as int] == "PROCESS_VM_WRITE"@);
    assert(s9.contains("PROCESS_VM_WRITE"@));
    assert(s9.contains("PROCESS_VM_READ"@));
    assert(s10.contains("PROCESS_VM_READ"@) && s10.contains("PROCESS_VM_WRITE"@));
    assert(s11.contains("PROCESS_VM_READ"@) && s11.contains("PROCESS_VM_WRITE"@));
    assert(s12.contains("PROCESS_VM_READ"@) && s12.contains("PROCESS_VM_WRITE"@));
    assert(s13.contains("PROCESS_VM_READ"@) && s13.contains("PROCESS_VM_WRITE"@));
    assert(s14.contains("PROCESS_VM_READ"@) && s14.contains("PROCESS_VM_WRITE"@));
    assert(s15.contains("PROCESS_VM_READ"@) && s15.contains("PROCESS_VM_WRITE"@));
}

/// The enrichment a raw entry and the outcome of querying its owner's image
/// paths decode to. A `None` outcome (the owner could not be opened or
/// queried) leaves the paths empty; the access rights are always decoded.
pub open spec fn spec_info_of(entry: SystemHandleEntry, paths: Option<
    (Seq<char>, Seq<char>),
>) -> HandleInfoView {
    HandleInfoView {
        handle_value: entry.handle_value,
        nt_path: match paths {
            Some(p) => p.0,
            None => Seq::empty(),
        },
        win32_path: match paths {
            Some(p) => p.1,
            None => Seq::empty(),
        },
        access_rights: spec_decode_access_mask(entry.granted_access),
    }
}

impl HandleInfo {
    /// Builds the enrichment for one raw entry from the owner's image paths,
    /// when they could be queried, and the entry's own access mask.
    pub fn from_handle_entry(entry: &SystemHandleEntry, paths: Option<(String, String)>) -> (r:
        HandleInfo)
        ensures
            r@ == spec_info_of(*entry, paths.deep_view()),
    {
        let (nt_path, win32_path) = match paths {
            Some(p) => p,
            None => (String::new(), String::new()),
        };
        HandleInfo {
            handle_value: entry.handle_value,
            nt_path,
            win32_path,
            access_rights: decode_access_mask(entry.granted_access),
        }
    }
}

impl Clone for HandleInfo {
    fn clone(&self) -> (r: Self)
        ensures
            r@ == self@,
    {
        let r = HandleInfo {
            handle_value: self.handle_value,
            nt_path: self.nt_path.clone(),
            win32_path: self.win32_path.clone(),
            access_rights: clone_strings(&self.access_rights),
        };
        proof {
            assert(r@.access_rights =~~= self@.access_rights);
        }
        r
    }
}

/// Clones a list of strings, keeping its contents.
pub fn clone_strings(v: &Vec<String>) -> (r: Vec<String>)
    ensures
        r.deep_view() == v.deep_view(),
{
    let mut r: Vec<String> = Vec::new();
    let n = v.len();
    let mut i: usize = 0;
    while i < n
        invariant
            i <= n,
            n == v@.len(),
            r@.len() == i as int,
            forall|j: int| 0 <= j < i as int ==> r@[j]@ == #[trigger] v@[j]@,
        decreases n - i,
    {
        r.push(v[i].clone());
        i = i + 1;
    }
    proof {
        assert(r.deep_view() =~~= v.deep_view());
    }
    r
}

} // verus!
