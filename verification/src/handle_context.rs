//! A raw snapshot entry paired with its optional enrichment, and its
//! rendering as a block of the scan report.

use vstd::prelude::*;
use vstd::string::StringExecFns;

use crate::handle::SystemHandleEntry;
use crate::handle_info::{HandleInfo, HandleInfoView};
use crate::text::{spec_dec_digits, spec_hex_literal, u32_to_hex, u64_to_dec};

verus! {

/// Mathematical image of a `HandleContext`.
pub struct HandleContextView {
    pub raw: SystemHandleEntry,
    pub info: Option<HandleInfoView>,
}

/// One handle under scrutiny: the raw snapshot entry, plus enrichment once
/// the entry has survived filtering. The raw entry is never rewritten.
pub struct HandleContext {
    pub raw: SystemHandleEntry,
    pub info: Option<HandleInfo>,
}

impl View for HandleContext {
    type V = HandleContextView;

    open spec fn view(&self) -> HandleContextView {
        HandleContextView {
            raw: self.raw,
            info: match self.info {
                Some(ref i) => Some(i@),
                None => None,
            },
        }
    }
}

impl Clone for HandleContext {
    fn clone(&self) -> (r: Self)
        ensures
            r@ == self@,
    {
        HandleContext {
            raw: self.raw,
            info: match &self.info {
                Some(i) => Some(i.clone()),
                None => None,
            },
        }
    }
}

impl HandleContext {
    /// The decoded access-right names, empty while the entry is un-enriched.
    pub fn access_rights(&self) -> (r: Vec<String>)
        ensures
            r.deep_view() == match self@.info {
                Some(i) => i.access_rights,
                None => Seq::<Seq<char>>::empty(),
            },
    {
        match &self.info {
            Some(i) => crate::handle_info::clone_strings(&i.access_rights),
            None => {
                let r = Vec::<String>::new();
                proof {
                    assert(r.deep_view() =~~= Seq::<Seq<char>>::empty());
                }
                r
            },
        }
    }

    /// The owner's NT-namespace and Win32 image paths, if enriched.
    pub fn paths(&self) -> (r: Option<(String, String)>)
        ensures
            match (r, self@.info) {
                (Some(p), Some(i)) => p.0@ == i.nt_path && p.1@ == i.win32_path,
                (None, None) => true,
                _ => false,
            },
    {
        match &self.info {
            Some(i) => Some((i.nt_path.clone(), i.win32_path.clone())),
            None => None,
        }
    }
}

/// The report lines of a list of decoded rights, one name per line.
pub open spec fn spec_render_rights(rs: Seq<Seq<char>>) -> Seq<char>
    decreases rs.len(),
{
    if rs.len() == 0 {
        Seq::empty()
    } else {
        spec_render_rights(rs.drop_last()) + "    - "@ + rs.last() + "\n"@
    }
}

/// Whether the enrichment has any image path worth printing.
pub open spec fn spec_has_paths(info: HandleInfoView) -> bool {
    info.nt_path.len() > 0 || info.win32_path.len() > 0
}

/// The report block of one handle context: owner, raw access mask, then the
/// decoded rights and the image paths when they are known.
pub open spec fn spec_render_context(h: HandleContextView) -> Seq<char> {
    let head = "   Process ID: "@ + spec_dec_digits(h.raw.process_id as nat) + "\n"@
        + "  Access Rights: "@ + spec_hex_literal(h.raw.granted_access as nat) + "\n"@;
    match h.info {
        Some(info) => {
            let with_rights = if info.access_rights.len() > 0 {
                head + "  Decoded Access Rights:\n"@ + spec_render_rights(info.access_rights)
            } else {
                head
            };
            if spec_has_paths(info) {
                with_rights + "  NT Path: "@ + info.nt_path + "\n"@ + "  Win32 Path: "@
                    + info.win32_path + "\n"@
            } else {
                with_rights
            }
        },
        None => head,
    }
}

impl HandleContext {
    /// Renders this entry as its block of the scan report.
    pub fn render(&self) -> (r: String)
        ensures
            r@ == spec_render_context(self@),
    {
        let mut out = "   Process ID: ".to_owned();
        let pid_text = u64_to_dec(self.raw.process_id as u64);
        out.append(pid_text.as_str());
        out.append("\n");
        out.append("  Access Rights: ");
        let access_text = u32_to_hex(self.raw.granted_access);
        out.append(access_text.as_str());
        out.append("\n");
        match &self.info {
            Some(info) => {
                if info.access_rights.len() > 0 {
                    out.append("  Decoded Access Rights:\n");
                    let n = info.access_rights.len();
                    let mut i: usize = 0;
                    let ghost head = out@;
                    while i < n
                        invariant
                            i <= n,
                            n == info.access_rights@.len(),
                            out@ == head + spec_render_rights(
                                info.access_rights.deep_view().take(i as int),
                            ),
                        decreases n - i,
                    {
                        out.append("    - ");
                        out.append(info.access_rights[i].as_str());
                        out.append("\n");
                        proof {
                            let rs = info.access_rights.deep_view();
                            assert(rs.take(i + 1).drop_last() =~= rs.take(i as int));
                            assert(rs.take(i + 1).last() == rs[i as int]);
                        }
                        i = i + 1;
                    }
                    proof {
                        assert(info.access_rights.deep_view().take(n as int)
                            =~= info.access_rights.deep_view());
                    }
                }
                if !info.nt_path.as_str().is_empty() || !info.win32_path.as_str().is_empty() {
                    out.append("  NT Path: ");
                    out.append(info.nt_path.as_str());
                    out.append("\n");
                    out.append("  Win32 Path: ");
                    out.append(info.win32_path.as_str());
                    out.append("\n");
                }
            },
            None => {},
        }
        out
    }
}

} // verus!
