//! The platform as an applet sees it: its version and its reboot.
use vstd::prelude::*;

verus! {

/// What is known of the version of the platform.
pub enum VersionCache {
    /// Nothing.
    Unknown,
    /// Its length.
    Measured(usize),
    /// The version.
    Known(&'static [u8]),
}

/// What happened to a question for the version.
pub enum VersionEvent {
    /// It was asked.
    Asked,
    /// The platform told the length of its version.
    Measured(usize),
    /// The platform wrote its version.
    Filled(&'static [u8]),
}

/// What to do next to answer a question for the version.
pub enum VersionStep {
    /// Ask the platform for the length of its version.
    Measure,
    /// Let the platform write its version to this buffer.
    Fill(Vec<u8>),
    /// Answer with this version.
    Ready(&'static [u8]),
}

/// What a step to answer a question for the version is.
#[verifier::ext_equal]
pub enum VersionStepView {
    Measure,
    Fill(Seq<u8>),
    Ready(&'static [u8]),
}

impl View for VersionStep {
    type V = VersionStepView;

    open spec fn view(&self) -> VersionStepView {
        match *self {
            VersionStep::Measure => VersionStepView::Measure,
            VersionStep::Fill(buffer) => VersionStepView::Fill(buffer@),
            VersionStep::Ready(version) => VersionStepView::Ready(version),
        }
    }
}

impl VersionCache {
    /// Whether the event can follow on what is known: a length is told where none is known,
    /// is one that a buffer can have, and is that of the version.
    pub open spec fn allows(self, event: VersionEvent) -> bool {
        match event {
            VersionEvent::Asked => true,
            VersionEvent::Measured(len) => self is Unknown && len <= isize::MAX,
            VersionEvent::Filled(version) => self matches VersionCache::Measured(len)
                && version@.len() == len,
        }
    }

    /// What is known after the event. A question that was not answered leaves nothing to
    /// the next one.
    pub open spec fn after(self, event: VersionEvent) -> VersionCache {
        match event {
            VersionEvent::Asked => if self is Known {
                self
            } else {
                VersionCache::Unknown
            },
            VersionEvent::Measured(len) => VersionCache::Measured(len),
            VersionEvent::Filled(version) => VersionCache::Known(version),
        }
    }

    /// What to do after the event. The buffer has the length that was told, and holds
    /// zeros.
    pub open spec fn step(self, event: VersionEvent) -> VersionStepView {
        match event {
            VersionEvent::Asked => match self {
                VersionCache::Known(version) => VersionStepView::Ready(version),
                _ => VersionStepView::Measure,
            },
            VersionEvent::Measured(len) => VersionStepView::Fill(
                Seq::new(len as nat, |i: int| 0u8),
            ),
            VersionEvent::Filled(version) => VersionStepView::Ready(version),
        }
    }

    /// The answer to a question, and what is known after it, if the platform has this
    /// length and this version to tell.
    pub open spec fn answer(self, len: usize, version: &'static [u8]) -> (
        VersionStepView,
        VersionCache,
    ) {
        let asked = self.after(VersionEvent::Asked);
        match self.step(VersionEvent::Asked) {
            VersionStepView::Measure => {
                let measured = asked.after(VersionEvent::Measured(len));
                (
                    measured.step(VersionEvent::Filled(version)),
                    measured.after(VersionEvent::Filled(version)),
                )
            },
            step => (step, asked),
        }
    }
}

/// Returns what to do next for the version of the platform.
pub fn version(cache: &mut VersionCache, event: VersionEvent) -> (step: VersionStep)
    requires
        old(cache).allows(event),
    ensures
        step@ == old(cache).step(event),
        *final(cache) == old(cache).after(event),
        event matches VersionEvent::Measured(len) ==> {
            &&& step matches VersionStep::Fill(buffer)
            &&& buffer@.len() == len
        },
{
    match event {
        VersionEvent::Asked => match *cache {
            VersionCache::Known(version) => VersionStep::Ready(version),
            _ => {
                *cache = VersionCache::Unknown;
                VersionStep::Measure
            },
        },
        VersionEvent::Measured(len) => {
            *cache = VersionCache::Measured(len);
            VersionStep::Fill(vec![0u8; len])
        },
        VersionEvent::Filled(version) => {
            *cache = VersionCache::Known(version);
            VersionStep::Ready(version)
        },
    }
}

/// Returns how to report that a reboot of the device returned to the applet.
pub fn reboot(res: isize) -> (message: String)
    ensures
        message@ == "reboot() returned "@ + crate::text::signed_decimal(res as int),
{
    let res = crate::text::signed_decimal_string(res);
    "reboot() returned ".to_string().concat(res.as_str())
}

/// The platform is asked for its version at most once. What it tells then is the answer,
/// and has the length that it told first. Whatever it would tell the second time, the
/// second answer is the first one, and nothing new is known.
pub proof fn law_version_is_asked_once(
    cache: VersionCache,
    len1: usize,
    version1: &'static [u8],
    len2: usize,
    version2: &'static [u8],
)
    requires
        len1 <= isize::MAX,
        version1@.len() == len1,
    ensures
        ({
            let (answer, known) = cache.answer(len1, version1);
            &&& cache !is Known ==> {
                let asked = cache.after(VersionEvent::Asked);
                &&& asked.allows(VersionEvent::Measured(len1))
                &&& asked.after(VersionEvent::Measured(len1)).allows(
                    VersionEvent::Filled(version1),
                )
                &&& answer == VersionStepView::Ready(version1)
            }
            &&& known.step(VersionEvent::Asked) == answer
            &&& known.answer(len2, version2) == (answer, known)
        }),
{
}

/// A version is answered only as it is known, or with the length that was told: the step
/// after each event that can follow is an answer only then.
pub proof fn law_answer_has_the_told_length(cache: VersionCache, event: VersionEvent)
    requires
        cache.allows(event),
    ensures
        cache.step(event) matches VersionStepView::Ready(version) ==> {
            ||| cache == VersionCache::Known(version)
            ||| cache matches VersionCache::Measured(len) && version@.len() == len
        },
{
}

/// The buffer that the platform writes to has the length that the platform told, whatever
/// that is, and holds zeros. What the platform writes to the whole of it is what can follow,
/// and nothing of another length is. It is the answer.
pub proof fn law_buffer_has_the_told_length(len: usize, version: &'static [u8])
    requires
        VersionCache::Unknown.allows(VersionEvent::Measured(len)),
    ensures
        ({
            let event = VersionEvent::Measured(len);
            let measured = VersionCache::Unknown.after(event);
            let filled = VersionEvent::Filled(version);
            &&& VersionCache::Unknown.step(event) matches VersionStepView::Fill(buffer)
            &&& buffer.len() == len
            &&& forall|i: int| 0 <= i < len ==> #[trigger] buffer[i] == 0
            &&& measured.allows(filled) <==> version@.len() == buffer.len()
            &&& measured.step(filled) == VersionStepView::Ready(version)
            &&& measured.after(filled) == VersionCache::Known(version)
        }),
{
}

/// A length can be told exactly where none is known and a buffer can have it.
pub proof fn law_every_length_can_be_told(cache: VersionCache, len: usize)
    ensures
        cache.allows(VersionEvent::Asked),
        cache.allows(VersionEvent::Measured(len)) <==> cache is Unknown && len <= isize::MAX,
{
}

/// A question is answered with the version that is known, whatever that is, and leaves it
/// as it is. Without one, the platform is asked for the length first, and what was told to
/// a question before that does not count.
pub proof fn law_question_is_answered_with_what_is_known(cache: VersionCache)
    ensures
        cache matches VersionCache::Known(version) ==> cache.step(VersionEvent::Asked)
            == VersionStepView::Ready(version) && cache.after(VersionEvent::Asked) == cache,
        cache !is Known ==> cache.step(VersionEvent::Asked) == VersionStepView::Measure
            && cache.after(VersionEvent::Asked) == VersionCache::Unknown,
{
}

/// The report of a reboot that returned has the number that it returned with, so that no
/// two numbers are reported alike.
pub proof fn law_reboot_reports_the_number(res: isize, message: String)
    requires
        call_ensures(reboot, (res,), message),
    ensures
        ({
            let prefix = "reboot() returned "@;
            let number = message@.skip(prefix.len() as int);
            &&& prefix.is_prefix_of(message@)
            &&& res >= 0 ==> crate::text::is_decimal(number, res as int)
            &&& res < 0 ==> number.len() > 0 && number[0] == '-' && crate::text::is_decimal(
                number.skip(1),
                -res,
            )
        }),
{
    let prefix = "reboot() returned "@;
    let number = message@.skip(prefix.len() as int);
    assert(prefix =~= message@.subrange(0, prefix.len() as int));
    assert(number =~= crate::text::signed_decimal(res as int));
    if res < 0 {
        crate::text::law_digits_stand_for_the_number((-res) as nat);
        assert(number.skip(1) =~= crate::text::decimal((-res) as nat));
    } else {
        crate::text::law_digits_stand_for_the_number(res as nat);
    }
}

} // verus!
