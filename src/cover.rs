//! The cover-art resolver: turns a track's art reference into what the cover
//! pane shows, through a ladder of tiers. Pixel rendering needs a successful
//! terminal probe (made once, lazily, and remembered) and a local-file
//! reference; where the probe fails, a static banner says so.
//!
//! The probe and the decode are run by the caller on request: `resolve` names
//! the work to do, and `probe_finished` / `decode_finished` take its outcome.
//! Every action but `Keep` tells the caller to drop the renderable it holds.
use vstd::prelude::*;

verus! {

/// What percent-decoding a string as UTF-8 gives: `None` where the decoded
/// bytes are not UTF-8.
pub uninterp spec fn percent_decoded(s: Seq<char>) -> Option<Seq<char>>;

/// Relies on `urlencoding::decode`: percent-decodes `%XX` sequences and reads
/// the bytes as UTF-8, failing only where they are not; an input without `%`
/// comes back as it is.
#[verifier::external_body]
fn percent_decode(s: &str) -> (r: Option<String>)
    ensures
        r is None <==> percent_decoded(s@) is None,
        r matches Some(d) ==> percent_decoded(s@) == Some(d@),
        r is None ==> s@.contains('%'),
        r matches Some(d) ==> (!s@.contains('%') ==> d@ == s@),
{
    urlencoding::decode(s).ok().map(|d| d.into_owned())
}

/// The character that `%ab` stands for in the fallback table, if any.
pub open spec fn escape_char(a: char, b: char) -> Option<char> {
    if a == '2' && b == '0' {
        Some(' ')
    } else if a == '2' && b == 'F' {
        Some('/')
    } else if a == '5' && b == 'C' {
        Some('\\')
    } else if a == '3' && b == 'A' {
        Some(':')
    } else {
        None
    }
}

/// `s` with each of `%20`, `%2F`, `%5C`, `%3A` replaced, left to right, by
/// space, slash, backslash and colon; everything else kept.
pub open spec fn unescaped(s: Seq<char>) -> Seq<char>
    decreases s.len(),
{
    if s.len() == 0 {
        s
    } else if s.len() >= 3 && s[0] == '%' && escape_char(s[1], s[2]) is Some {
        seq![escape_char(s[1], s[2])->0] + unescaped(s.skip(3))
    } else {
        seq![s[0]] + unescaped(s.skip(1))
    }
}

/// The scheme prefix of a local-file locator.
pub open spec fn file_prefix() -> Seq<char> {
    seq!['f', 'i', 'l', 'e', ':', '/', '/']
}

/// The path that a remainder decodes to, given what percent-decoding gave:
/// its result, or the fallback table where it failed.
pub open spec fn decoded_path(rest: Seq<char>, decoded: Option<Seq<char>>) -> Seq<char> {
    match decoded {
        Some(d) => d,
        None => unescaped(rest),
    }
}

/// The local path that an art reference names: `None` unless it starts with
/// `file://`; otherwise the remainder, percent-decoded.
pub open spec fn local_path(url: Seq<char>) -> Option<Seq<char>> {
    if url.len() >= 7 && url.subrange(0, 7) == file_prefix() {
        Some(decoded_path(url.skip(7), percent_decoded(url.skip(7))))
    } else {
        None
    }
}

/// The fallback decoding: replaces `%20`, `%2F`, `%5C` and `%3A`, left to
/// right, by space, slash, backslash and colon.
pub fn basic_unescape(s: &str) -> (r: String)
    ensures
        r@ == unescaped(s@),
{
    let sp = " ";
    let sl = "/";
    let bs = "\\";
    let co = ":";
    proof {
        reveal_strlit(" ");
        reveal_strlit("/");
        reveal_strlit("\\");
        reveal_strlit(":");
        assert(sp@ =~= seq![' ']);
        assert(sl@ =~= seq!['/']);
        assert(bs@ =~= seq!['\\']);
        assert(co@ =~= seq![':']);
    }
    let n = s.unicode_len();
    let mut out = String::new();
    let mut i: usize = 0;
    assert(s@.skip(0) =~= s@);
    assert(out@ + unescaped(s@) =~= unescaped(s@));
    while i < n
        invariant
            n == s@.len(),
            i <= n,
            sp@ == seq![' '],
            sl@ == seq!['/'],
            bs@ == seq!['\\'],
            co@ == seq![':'],
            unescaped(s@) == out@ + unescaped(s@.skip(i as int)),
        decreases n - i,
    {
        let ghost rest = s@.skip(i as int);
        let ghost out0 = out@;
        let c = s.get_char(i);
        assert(rest[0] == c);
        let mut step: usize = 1;
        if c == '%' && n - i >= 3 {
            let a = s.get_char(i + 1);
            let b = s.get_char(i + 2);
            assert(rest[1] == a && rest[2] == b);
            if a == '2' && b == '0' {
                out.append(sp);
                assert(out@ =~= out0 + seq![escape_char(rest[1], rest[2])->0]);
                step = 3;
            } else if a == '2' && b == 'F' {
                out.append(sl);
                assert(out@ =~= out0 + seq![escape_char(rest[1], rest[2])->0]);
                step = 3;
            } else if a == '5' && b == 'C' {
                out.append(bs);
                assert(out@ =~= out0 + seq![escape_char(rest[1], rest[2])->0]);
                step = 3;
            } else if a == '3' && b == 'A' {
                out.append(co);
                assert(out@ =~= out0 + seq![escape_char(rest[1], rest[2])->0]);
                step = 3;
            }
        }
        if step == 1 {
            out.append(s.substring_char(i, i + 1));
        }
        proof {
            assert(rest.skip(step as int) =~= s@.skip(i + step));
            if step == 1 {
                assert(s@.subrange(i as int, i + 1) =~= seq![rest[0]]);
                assert(out@ =~= out0 + seq![rest[0]]);
                assert(unescaped(rest) == seq![rest[0]] + unescaped(rest.skip(1)));
            } else {
                assert(unescaped(rest) == seq![escape_char(rest[1], rest[2])->0] + unescaped(
                    rest.skip(3),
                ));
            }
            assert(out@ + unescaped(s@.skip(i + step)) =~= out0 + unescaped(rest));
        }
        i = i + step;
    }
    assert(s@.skip(n as int) =~= Seq::<char>::empty());
    assert(out@ + Seq::<char>::empty() =~= out@);
    out
}

/// Whether `url` starts with the local-file scheme prefix `file://`.
pub fn has_file_prefix(url: &str) -> (r: bool)
    ensures
        r == (url@.len() >= 7 && url@.subrange(0, 7) == file_prefix()),
{
    let prefix = "file://";
    proof {
        reveal_strlit("file://");
        assert(prefix@ =~= file_prefix());
    }
    let n = url.unicode_len();
    if n < 7 {
        return false;
    }
    let mut i: usize = 0;
    while i < 7
        invariant
            n == url@.len(),
            n >= 7,
            i <= 7,
            prefix@ == file_prefix(),
            forall|j: int| 0 <= j < i ==> url@[j] == file_prefix()[j],
        decreases 7 - i,
    {
        if url.get_char(i) != prefix.get_char(i) {
            assert(url@.subrange(0, 7)[i as int] != file_prefix()[i as int]);
            return false;
        }
        i = i + 1;
    }
    assert(url@.subrange(0, 7) =~= file_prefix());
    true
}

/// The path that the remainder `rest` of a local-file locator stands for,
/// given `decoded`, the outcome of percent-decoding it: that outcome, or, where
/// decoding failed, `rest` through the fallback table.
pub fn path_from_decoded(rest: &str, decoded: Option<String>) -> (r: String)
    ensures
        r@ == decoded_path(
            rest@,
            match decoded {
                Some(d) => Some(d@),
                None => None,
            },
        ),
{
    match decoded {
        Some(d) => d,
        None => basic_unescape(rest),
    }
}

/// The local path named by an art reference: `None` unless it is a
/// `file://` locator; otherwise its remainder, percent-decoded, or put
/// through the fallback table where percent-decoding fails.
pub fn extract_file_path(url: &str) -> (r: Option<String>)
    ensures
        r is None <==> local_path(url@) is None,
        r matches Some(p) ==> local_path(url@) == Some(p@),
        r matches Some(p) ==> (!url@.contains('%') ==> p@ == url@.skip(7)),
{
    if !has_file_prefix(url) {
        return None;
    }
    let n = url.unicode_len();
    let rest = url.substring_char(7, n);
    assert(rest@ =~= url@.skip(7));
    assert(url@.contains('%') <== rest@.contains('%')) by {
        if rest@.contains('%') {
            let k = choose|k: int| 0 <= k < rest@.len() && rest@[k] == '%';
            assert(url@[k + 7] == '%');
        }
    }
    let decoded = percent_decode(rest);
    Some(path_from_decoded(rest, decoded))
}

/// What is known of the terminal's ability to show pixel images.
#[derive(Debug, Clone, Copy, PartialEq, Eq, Structural)]
pub enum ProbeState {
    /// Not probed yet; the probe runs on first need.
    Unknown,
    /// The probe succeeded: pixel rendering is available.
    Capable,
    /// The probe failed: pixel rendering is off for the rest of the run.
    Incapable,
}

/// What the cover pane shows for the current reference.
#[derive(Debug, Clone, Copy, PartialEq, Eq, Structural)]
pub enum CoverStatus {
    /// The track has no art reference.
    NoCover,
    /// Waiting for the terminal probe.
    AwaitingProbe,
    /// Waiting for the image to be decoded.
    Decoding,
    /// The decoded image is shown.
    Loaded,
    /// Decoding failed; not retried until the reference changes.
    Failed,
    /// The reference is not a local file, so no image is decoded.
    NotLocal,
    /// The terminal cannot show images: a static banner says so.
    Unsupported,
}

/// The work that a resolver step asks of its caller.
#[derive(Debug, Clone, PartialEq, Eq)]
pub enum CoverAction {
    /// Nothing changes: keep what is shown.
    Keep,
    /// Drop the renderable held; nothing else to do.
    Discard,
    /// Drop the renderable held and probe the terminal.
    Probe,
    /// Drop the renderable held and decode the image at this local path.
    Decode(String),
}

/// The resolver's state as the contracts see it.
pub ghost struct CoverView {
    pub probe: ProbeState,
    pub reference: Option<Seq<char>>,
    pub status: CoverStatus,
}

/// The status that a reference starts from, given what the probe showed.
pub open spec fn entered(probe: ProbeState, reference: Option<Seq<char>>) -> CoverStatus {
    match reference {
        None => CoverStatus::NoCover,
        Some(u) => match probe {
            ProbeState::Unknown => CoverStatus::AwaitingProbe,
            ProbeState::Incapable => CoverStatus::Unsupported,
            ProbeState::Capable => if local_path(u) is Some {
                CoverStatus::Decoding
            } else {
                CoverStatus::NotLocal
            },
        },
    }
}

/// The action that goes with entering status `v.status`: a probe, a decode of
/// the reference's local path, or only dropping what was shown.
pub open spec fn entry_action(v: CoverView, a: CoverAction) -> bool {
    match v.status {
        CoverStatus::AwaitingProbe => a is Probe,
        CoverStatus::Decoding => a matches CoverAction::Decode(p) && v.reference is Some
            && local_path(v.reference->0) == Some(p@),
        _ => a is Discard,
    }
}

impl CoverView {
    /// The state after resolving `reference`: unchanged where it is the
    /// current one; otherwise the previous outcome is dropped and the new
    /// reference starts over from what the probe showed.
    pub open spec fn resolved(self, reference: Option<Seq<char>>) -> CoverView {
        if reference == self.reference {
            self
        } else {
            CoverView { reference, status: entered(self.probe, reference), ..self }
        }
    }

    /// The action that goes with resolving `reference` from this state.
    pub open spec fn resolve_action(self, reference: Option<Seq<char>>, a: CoverAction) -> bool {
        if reference == self.reference {
            a is Keep
        } else {
            entry_action(self.resolved(reference), a)
        }
    }

    /// The state after a probe outcome: the first outcome is kept for good,
    /// and a reference that waited for it moves on.
    pub open spec fn probed(self, capable: bool) -> CoverView {
        let probe = if self.probe is Unknown {
            if capable {
                ProbeState::Capable
            } else {
                ProbeState::Incapable
            }
        } else {
            self.probe
        };
        CoverView {
            probe,
            status: if self.status is AwaitingProbe {
                entered(probe, self.reference)
            } else {
                self.status
            },
            ..self
        }
    }

    /// The state after a decode outcome for the reference being decoded.
    pub open spec fn decoded(self, ok: bool) -> CoverView {
        if self.status is Decoding {
            CoverView {
                status: if ok {
                    CoverStatus::Loaded
                } else {
                    CoverStatus::Failed
                },
                ..self
            }
        } else {
            self
        }
    }
}

/// The cover-art resolver: the remembered probe outcome, the reference last
/// resolved and what is shown for it.
pub struct CoverArt {
    probe: ProbeState,
    reference: Option<String>,
    status: CoverStatus,
}

impl View for CoverArt {
    type V = CoverView;

    closed spec fn view(&self) -> CoverView {
        CoverView {
            probe: self.probe,
            reference: match self.reference {
                Some(s) => Some(s@),
                None => None,
            },
            status: self.status,
        }
    }
}

/// The view of an optional string.
pub open spec fn opt_view(s: Option<String>) -> Option<Seq<char>> {
    match s {
        Some(t) => Some(t@),
        None => None,
    }
}

impl CoverArt {
    /// A resolver that has not probed and shows no cover.
    pub fn new() -> (r: CoverArt)
        ensures
            r@.probe == ProbeState::Unknown,
            r@.reference is None,
            r@.status == CoverStatus::NoCover,
    {
        CoverArt { probe: ProbeState::Unknown, reference: None, status: CoverStatus::NoCover }
    }

    /// The step for a new status entered with the current reference.
    fn enter(&mut self) -> (a: CoverAction)
        ensures
            final(self)@ == (CoverView { status: entered(old(self)@.probe, old(self)@.reference), ..old(self)@ }),
            entry_action(final(self)@, a),
    {
        match &self.reference {
            None => {
                self.status = CoverStatus::NoCover;
                CoverAction::Discard
            },
            Some(u) => match self.probe {
                ProbeState::Unknown => {
                    self.status = CoverStatus::AwaitingProbe;
                    CoverAction::Probe
                },
                ProbeState::Incapable => {
                    self.status = CoverStatus::Unsupported;
                    CoverAction::Discard
                },
                ProbeState::Capable => match extract_file_path(u.as_str()) {
                    Some(p) => {
                        self.status = CoverStatus::Decoding;
                        CoverAction::Decode(p)
                    },
                    None => {
                        self.status = CoverStatus::NotLocal;
                        CoverAction::Discard
                    },
                },
            },
        }
    }

    /// Resolves the art reference of the current track. The same reference as
    /// last time changes nothing and returns `Keep`; a changed one (also to or
    /// from none) drops the previous outcome and starts over: a probe where
    /// none was made yet, a decode of a local file where the terminal can show
    /// images, else a static status.
    pub fn resolve(&mut self, reference: Option<String>) -> (a: CoverAction)
        ensures
            final(self)@ == old(self)@.resolved(opt_view(reference)),
            old(self)@.resolve_action(opt_view(reference), a),
    {
        let same = match (&self.reference, &reference) {
            (None, None) => true,
            (Some(x), Some(y)) => *x == *y,
            _ => false,
        };
        if same {
            return CoverAction::Keep;
        }
        self.reference = reference;
        self.enter()
    }

    /// Takes the outcome of the terminal probe. Only the first outcome counts;
    /// a reference that waited for it moves on to a decode or a banner.
    pub fn probe_finished(&mut self, capable: bool) -> (a: CoverAction)
        ensures
            final(self)@ == old(self)@.probed(capable),
            old(self)@.status is AwaitingProbe ==> entry_action(final(self)@, a),
            !(old(self)@.status is AwaitingProbe) ==> a is Keep,
    {
        if self.probe == ProbeState::Unknown {
            self.probe = if capable {
                ProbeState::Capable
            } else {
                ProbeState::Incapable
            };
        }
        if self.status == CoverStatus::AwaitingProbe {
            self.enter()
        } else {
            CoverAction::Keep
        }
    }

    /// Takes the outcome of decoding the current reference's image: shown, or
    /// failed for good until the reference changes.
    pub fn decode_finished(&mut self, ok: bool)
        ensures
            final(self)@ == old(self)@.decoded(ok),
    {
        if self.status == CoverStatus::Decoding {
            self.status = if ok {
                CoverStatus::Loaded
            } else {
                CoverStatus::Failed
            };
        }
    }

    /// What the cover pane shows.
    pub fn status(&self) -> (r: CoverStatus)
        ensures
            r == self@.status,
    {
        self.status
    }

    /// What the terminal probe showed, if it ran.
    pub fn probe_state(&self) -> (r: ProbeState)
        ensures
            r == self@.probe,
    {
        self.probe
    }
}

/// Resolving the same reference twice in a row: the second time asks for no
/// work (no decode, no probe) and keeps what the first one left.
pub proof fn lemma_same_reference_is_cached(v: CoverView, reference: Option<Seq<char>>, a: CoverAction)
    requires
        v.resolved(reference).resolve_action(reference, a),
    ensures
        a is Keep,
        v.resolved(reference).resolved(reference) == v.resolved(reference),
{
}

/// Resolving a changed reference (also none to some and some to none) always
/// drops the previous renderable: the action is never `Keep`, and nothing
/// decoded is carried over.
pub proof fn lemma_changed_reference_discards(v: CoverView, reference: Option<Seq<char>>, a: CoverAction)
    requires
        reference != v.reference,
        v.resolve_action(reference, a),
    ensures
        !(a is Keep),
        !(v.resolved(reference).status is Loaded),
        !(v.resolved(reference).status is Failed),
        v.resolved(reference).reference == reference,
{
}

} // verus!
