//! The application that had the focus when a recording started, and that gets
//! it back before the text is pasted.
use crate::text;
use vstd::prelude::*;
use vstd::utf8::*;

verus! {

/// The bundle identifiers of this application, under its present and its
/// former names.
pub open spec fn is_own_bundle_id(bundle_id: Seq<char>) -> bool {
    ||| bundle_id == "com.newblacc.phraser"@
    ||| bundle_id == "com.newblacc.parler"@
    ||| bundle_id == "com.melvynx.parler"@
    ||| bundle_id == "computer.handy"@
}

/// Whether a bundle identifier is one of this application's own.
pub fn is_phraser_bundle_id(bundle_id: &str) -> (own: bool)
    ensures
        own == is_own_bundle_id(bundle_id@),
{
    text::same_text(bundle_id, "com.newblacc.phraser") || text::same_text(
        bundle_id,
        "com.newblacc.parler",
    ) || text::same_text(bundle_id, "com.melvynx.parler") || text::same_text(
        bundle_id,
        "computer.handy",
    )
}

/// The text that bytes stand for when what is not UTF-8 is replaced.
pub uninterp spec fn lossy_text(bytes: Seq<u8>) -> Seq<char>;

/// `String::from_utf8_lossy` decodes UTF-8, and puts replacement characters
/// where the bytes are not UTF-8. How many, and where, is left to it.
#[verifier::external_body]
fn decode_lossy(bytes: &[u8]) -> (decoded: String)
    ensures
        decoded@ == lossy_text(bytes@),
        valid_utf8(bytes@) ==> decoded@ == decode_utf8(bytes@),
{
    String::from_utf8_lossy(bytes).into_owned()
}

/// The bundle identifier to remember after `report` named the frontmost
/// application: none where it named nothing or this application itself.
pub open spec fn reported_app(report: Seq<char>) -> Option<Seq<char>> {
    let bundle_id = text::trimmed(report);
    if bundle_id.len() == 0 || is_own_bundle_id(bundle_id) {
        None
    } else {
        Some(bundle_id)
    }
}

/// The remembered application after a report.
pub open spec fn remembered_after(saved: Option<Seq<char>>, report: Seq<char>) -> Option<
    Seq<char>,
> {
    match reported_app(report) {
        Some(bundle_id) => Some(bundle_id),
        None => saved,
    }
}

/// The script that brings the remembered application to the front again.
pub open spec fn activation_script(saved: Option<Seq<char>>) -> Option<Seq<char>> {
    match saved {
        Some(bundle_id) => if is_own_bundle_id(bundle_id) {
            None
        } else {
            Some("tell application id \""@ + bundle_id + "\" to activate"@)
        },
        None => None,
    }
}

/// The remembered application.
pub struct FrontmostApp {
    bundle_id: Option<String>,
}

impl View for FrontmostApp {
    type V = Option<Seq<char>>;

    closed spec fn view(&self) -> Option<Seq<char>> {
        text::opt_text(self.bundle_id)
    }
}

/// Reads the identifier out of a report on the frontmost application.
pub fn bundle_id_to_save(report: &str) -> (bundle_id: Option<String>)
    ensures
        text::opt_text(bundle_id) == reported_app(report@),
{
    let bundle_id = text::trim(report);
    if bundle_id.as_str().is_empty() || is_phraser_bundle_id(bundle_id.as_str()) {
        None
    } else {
        Some(bundle_id)
    }
}

/// An application that may be remembered: one with an identifier, and not this
/// application itself.
pub open spec fn is_other_app(bundle_id: Seq<char>) -> bool {
    bundle_id.len() > 0 && !is_own_bundle_id(bundle_id)
}

impl FrontmostApp {
    #[verifier::type_invariant]
    spec fn remembers_other_app(&self) -> bool {
        self@ matches Some(bundle_id) ==> is_other_app(bundle_id)
    }

    /// Nothing is remembered.
    pub fn new() -> (app: Self)
        ensures
            app@ is None,
    {
        FrontmostApp { bundle_id: None }
    }

    /// Remembers the frontmost application out of the output `stdout` of the
    /// command that reports it.
    pub fn save_frontmost_app(&mut self, stdout: &[u8])
        ensures
            final(self)@ == remembered_after(old(self)@, lossy_text(stdout@)),
            final(self)@ matches Some(bundle_id) ==> is_other_app(bundle_id),
            valid_utf8(stdout@) ==> final(self)@ == remembered_after(
                old(self)@,
                decode_utf8(stdout@),
            ),
    {
        proof {
            use_type_invariant(&*self);
        }
        let report = decode_lossy(stdout);
        if let Some(bundle_id) = bundle_id_to_save(report.as_str()) {
            self.bundle_id = Some(bundle_id);
        }
    }

    /// Forgets the remembered application, and returns the script that
    /// activates it.
    pub fn restore_frontmost_app(&mut self) -> (script: Option<String>)
        ensures
            final(self)@ is None,
            text::opt_text(script) == activation_script(old(self)@),
            script is Some <==> old(self)@ is Some,
    {
        proof {
            use_type_invariant(&*self);
        }
        let mut taken: Option<String> = None;
        std::mem::swap(&mut taken, &mut self.bundle_id);
        match taken {
            Some(bundle_id) => if is_phraser_bundle_id(bundle_id.as_str()) {
                None
            } else {
                Some(
                    text::join3("tell application id \"", bundle_id.as_str(), "\" to activate"),
                )
            },
            None => None,
        }
    }
}

/// What is remembered is never empty and never this application itself, so that
/// restoring always activates what was remembered last.
pub proof fn law_remembered_app(saved: Option<Seq<char>>, report: Seq<char>)
    requires
        saved matches Some(bundle_id) ==> is_other_app(bundle_id),
    ensures
        remembered_after(saved, report) matches Some(bundle_id) ==> is_other_app(bundle_id),
        remembered_after(saved, report) is Some <==> activation_script(
            remembered_after(saved, report),
        ) is Some,
        saved is Some ==> remembered_after(saved, report) is Some,
{
}

/// After a report that names another application, restoring activates exactly
/// that one, whatever was remembered before. A report that names nothing, or
/// this application, changes nothing.
pub proof fn law_save_restore(saved: Option<Seq<char>>, report: Seq<char>)
    ensures
        reported_app(report) matches Some(bundle_id) ==> activation_script(
            remembered_after(saved, report),
        ) == Some("tell application id \""@ + bundle_id + "\" to activate"@),
        reported_app(report) is None ==> remembered_after(saved, report) == saved,
{
}

/// A report names an application by what stands in it without the white space
/// around it. It is remembered unless it is empty or one of the four identifiers
/// of this application, and restoring runs the script that activates it.
pub proof fn law_reported_app(saved: Option<Seq<char>>, report: Seq<char>)
    ensures
        ({
            let id = text::trimmed(report);
            let kept = id.len() > 0 && id != "com.newblacc.phraser"@ && id != "com.newblacc.parler"@
                && id != "com.melvynx.parler"@ && id != "computer.handy"@;
            &&& reported_app(report) == (if kept {
                Some(id)
            } else {
                None
            })
            &&& remembered_after(saved, report) == (if kept {
                Some(id)
            } else {
                saved
            })
            &&& kept ==> activation_script(Some(id)) == Some(
                "tell application id \""@ + id + "\" to activate"@,
            )
            &&& activation_script(None) is None
        }),
{
}

}
