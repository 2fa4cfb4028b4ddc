//! Finding connected platforms: which candidates to open, and which platform to use.
use crate::hex::Hex;
use core::time::Duration;
use vstd::prelude::*;

verus! {

/// Options to connect to a platform.
pub struct ConnectionOptions {
    /// Serial of the platform to connect to.
    pub serial: Option<Hex>,
    /// Timeout to send or receive on the platform protocol.
    pub timeout: Duration,
}

impl Clone for ConnectionOptions {
    fn clone(&self) -> (options: ConnectionOptions)
        ensures
            options.timeout == self.timeout,
            match self.serial {
                Some(serial) => options.serial is Some && options.serial->0@ == serial@,
                None => options.serial is None,
            },
    {
        ConnectionOptions {
            serial: match &self.serial {
                Some(serial) => Some(serial.clone()),
                None => None,
            },
            timeout: self.timeout,
        }
    }
}

/// A platform that was opened, with the serial that it reported.
pub struct Platform<C> {
    /// The connection to it.
    pub connection: C,
    /// Its serial.
    pub serial: Vec<u8>,
}

/// A search for a platform: `D` is a candidate, `C` a connection.
pub struct Search<D, C> {
    /// The candidates that were not opened yet, in order.
    pub pending: Vec<D>,
    /// The platforms that match so far, in order.
    pub matches: Vec<Platform<C>>,
}

/// What a search is.
#[verifier::ext_equal]
pub struct SearchView<D, C> {
    pub pending: Seq<D>,
    pub matches: Seq<Platform<C>>,
}

impl<D, C> View for Search<D, C> {
    type V = SearchView<D, C>;

    open spec fn view(&self) -> SearchView<D, C> {
        SearchView { pending: self.pending@, matches: self.matches@ }
    }
}

/// Why no platform was selected among those that were opened.
pub enum SelectError<C> {
    /// None matches.
    NotFound,
    /// All of these match.
    Ambiguous(Vec<Platform<C>>),
}

/// What the reason is for which no platform was selected.
#[verifier::ext_equal]
pub enum SelectErrorView<C> {
    NotFound,
    Ambiguous(Seq<Platform<C>>),
}

impl<C> View for SelectError<C> {
    type V = SelectErrorView<C>;

    open spec fn view(&self) -> SelectErrorView<C> {
        match *self {
            SelectError::NotFound => SelectErrorView::NotFound,
            SelectError::Ambiguous(matches) => SelectErrorView::Ambiguous(matches@),
        }
    }
}

/// Why a search ended without a connection.
pub enum ConnectError<C, E> {
    /// A candidate could not be listed, opened or asked for its serial.
    Device(E),
    /// No platform was selected.
    Select(SelectError<C>),
}

/// What the reason is for which a search ended without a connection.
#[verifier::ext_equal]
pub enum ConnectErrorView<C, E> {
    Device(E),
    Select(SelectErrorView<C>),
}

/// What to do next in a search.
pub enum ConnectStep<D, C, E> {
    /// Open this candidate with this timeout, ask it for its serial, and hand the outcome
    /// to `ConnectionOptions::probed` with this search.
    Open {
        /// The candidate.
        candidate: D,
        /// The timeout of the connection.
        timeout: Duration,
        /// The search as it goes on.
        search: Search<D, C>,
    },
    /// The search is over.
    Done(Result<C, ConnectError<C, E>>),
}

/// What a step of a search is.
#[verifier::ext_equal]
pub enum ConnectStepView<D, C, E> {
    Open { candidate: D, timeout: Duration, search: SearchView<D, C> },
    Done(Result<C, ConnectErrorView<C, E>>),
}

impl<D, C, E> View for ConnectStep<D, C, E> {
    type V = ConnectStepView<D, C, E>;

    open spec fn view(&self) -> ConnectStepView<D, C, E> {
        match *self {
            ConnectStep::Open { candidate, timeout, search } => ConnectStepView::Open {
                candidate,
                timeout,
                search: search@,
            },
            ConnectStep::Done(Ok(connection)) => ConnectStepView::Done(Ok(connection)),
            ConnectStep::Done(Err(ConnectError::Device(error))) => ConnectStepView::Done(
                Err(ConnectErrorView::Device(error)),
            ),
            ConnectStep::Done(Err(ConnectError::Select(error))) => ConnectStepView::Done(
                Err(ConnectErrorView::Select(error@)),
            ),
        }
    }
}

/// One line to print to standard error.
pub enum ReportLine<'a, C> {
    /// This text.
    Text(String),
    /// The bullet, then the connection as it shows itself.
    Connection {
        /// The bullet.
        bullet: String,
        /// The connection.
        connection: &'a C,
    },
}

/// What a line to print is.
pub enum ReportLineView<C> {
    Text(Seq<char>),
    Connection { bullet: Seq<char>, connection: C },
}

impl<'a, C> View for ReportLine<'a, C> {
    type V = ReportLineView<C>;

    open spec fn view(&self) -> ReportLineView<C> {
        match *self {
            ReportLine::Text(text) => ReportLineView::Text(text@),
            ReportLine::Connection { bullet, connection } => ReportLineView::Connection {
                bullet: bullet@,
                connection: *connection,
            },
        }
    }
}

/// How to tell the user that no platform was selected.
pub struct Report<'a, C> {
    /// The lines to print first, in order.
    pub lines: Vec<ReportLine<'a, C>>,
    /// The message of the error.
    pub message: String,
}

impl ConnectionOptions {
    /// Whether a platform with this serial is looked for.
    pub open spec fn spec_accepts(self, serial: Seq<u8>) -> bool {
        match self.serial {
            Some(wanted) => wanted@ == serial,
            None => true,
        }
    }

    /// What a search among these platforms ends with: the platform, if there is just one.
    pub open spec fn selected<C, E>(matches: Seq<Platform<C>>) -> Result<
        C,
        ConnectErrorView<C, E>,
    > {
        if matches.len() == 1 {
            Ok(matches[0].connection)
        } else if matches.len() == 0 {
            Err(ConnectErrorView::Select(SelectErrorView::NotFound))
        } else {
            Err(ConnectErrorView::Select(SelectErrorView::Ambiguous(matches)))
        }
    }

    /// How a search goes on: with the first candidate, if one is left.
    pub open spec fn next<D, C, E>(self, search: SearchView<D, C>) -> ConnectStepView<D, C, E> {
        if search.pending.len() > 0 {
            ConnectStepView::Open {
                candidate: search.pending[0],
                timeout: self.timeout,
                search: SearchView { pending: search.pending.skip(1), ..search },
            }
        } else {
            ConnectStepView::Done(Self::selected(search.matches))
        }
    }

    /// How a search starts.
    pub open spec fn start<D, C, E>(self, listed: Result<Seq<D>, E>) -> ConnectStepView<D, C, E> {
        match listed {
            Ok(candidates) => self.next(SearchView { pending: candidates, matches: seq![] }),
            Err(error) => ConnectStepView::Done(Err(ConnectErrorView::Device(error))),
        }
    }

    /// The platforms that match, after one more was opened.
    pub open spec fn kept<C>(self, matches: Seq<Platform<C>>, platform: Platform<C>) -> Seq<
        Platform<C>,
    > {
        if self.spec_accepts(platform.serial@) {
            matches.push(platform)
        } else {
            matches
        }
    }

    /// How a search goes on once a candidate was opened or failed.
    pub open spec fn after<D, C, E>(
        self,
        search: SearchView<D, C>,
        probe: Result<Platform<C>, E>,
    ) -> ConnectStepView<D, C, E> {
        match probe {
            Ok(platform) => self.next(
                SearchView { matches: self.kept(search.matches, platform), ..search },
            ),
            Err(error) => ConnectStepView::Done(Err(ConnectErrorView::Device(error))),
        }
    }

    /// Whether a platform with this serial is looked for.
    fn accepts(&self, serial: &Vec<u8>) -> (r: bool)
        ensures
            r == self.spec_accepts(serial@),
    {
        match &self.serial {
            Some(wanted) => {
                let r = wanted.0 == *serial;
                assert(r ==> wanted@ =~= serial@);
                r
            },
            None => true,
        }
    }

    /// Goes on with a search.
    fn proceed<D, C, E>(&self, search: Search<D, C>) -> (step: ConnectStep<D, C, E>)
        ensures
            step@ == self.next::<D, C, E>(search@),
    {
        let mut search = search;
        if search.pending.len() > 0 {
            let candidate = search.pending.remove(0);
            return ConnectStep::Open { candidate, timeout: self.timeout, search };
        }
        let mut matches = search.matches;
        if matches.len() == 1 {
            match matches.pop() {
                Some(platform) => ConnectStep::Done(Ok(platform.connection)),
                None => ConnectStep::Done(Err(ConnectError::Select(SelectError::NotFound))),
            }
        } else if matches.len() == 0 {
            ConnectStep::Done(Err(ConnectError::Select(SelectError::NotFound)))
        } else {
            ConnectStep::Done(Err(ConnectError::Select(SelectError::Ambiguous(matches))))
        }
    }

    /// Establishes a connection: starts a search among the candidates that were listed.
    pub fn connect<D, C, E>(&self, listed: Result<Vec<D>, E>) -> (step: ConnectStep<D, C, E>)
        ensures
            step@ == self.start::<D, C, E>(
                match listed {
                    Ok(candidates) => Ok(candidates@),
                    Err(error) => Err(error),
                },
            ),
    {
        match listed {
            Ok(candidates) => {
                let search = Search { pending: candidates, matches: Vec::new() };
                self.proceed(search)
            },
            Err(error) => ConnectStep::Done(Err(ConnectError::Device(error))),
        }
    }

    /// Goes on with a search once the candidate was opened or failed.
    pub fn probed<D, C, E>(&self, search: Search<D, C>, probe: Result<Platform<C>, E>) -> (step:
        ConnectStep<D, C, E>)
        ensures
            step@ == self.after::<D, C, E>(search@, probe),
    {
        let mut search = search;
        match probe {
            Ok(platform) => {
                if self.accepts(&platform.serial) {
                    search.matches.push(platform);
                }
                self.proceed(search)
            },
            Err(error) => ConnectStep::Done(Err(ConnectError::Device(error))),
        }
    }

    /// Whether the serials that a report shows can be shown.
    pub open spec fn can_explain<C>(self, error: SelectErrorView<C>) -> bool {
        match self.serial {
            Some(serial) => serial@.len() <= usize::MAX / 512,
            None => match error {
                SelectErrorView::NotFound => true,
                SelectErrorView::Ambiguous(matches) => forall|i: int|
                    0 <= i < matches.len() ==> (#[trigger] matches[i]).serial@.len() <= usize::MAX
                        / 512,
            },
        }
    }

    /// The message of the error.
    pub open spec fn message<C>(self, error: SelectErrorView<C>) -> Seq<char> {
        match (error, self.serial) {
            (SelectErrorView::NotFound, None) => "no connected platforms"@,
            (SelectErrorView::NotFound, Some(serial)) => "no connected platforms with serial="@
                + crate::hex::hex_text(serial@),
            (SelectErrorView::Ambiguous(_), None) => "more than one connected platform"@,
            (SelectErrorView::Ambiguous(_), Some(serial)) =>
                "more than one connected platform with serial="@ + crate::hex::hex_text(
                    serial@,
                ),
        }
    }

    /// The lines to print before the message: how to choose one of the platforms, or,
    /// where the serial does not tell them apart, the connections.
    pub open spec fn lines<C>(self, error: SelectErrorView<C>) -> Seq<ReportLineView<C>> {
        match (error, self.serial) {
            (SelectErrorView::NotFound, _) => seq![],
            (SelectErrorView::Ambiguous(matches), None) => seq![
                ReportLineView::Text(
                    "Choose one of the connected platforms using its serial:"@,
                ),
            ] + matches.map_values(
                |platform: Platform<C>|
                    ReportLineView::Text(
                        "--serial="@ + crate::hex::hex_text(platform.serial@),
                    ),
            ),
            (SelectErrorView::Ambiguous(matches), Some(serial)) => seq![
                ReportLineView::Text(
                    "Multiple connected platforms with serial="@ + crate::hex::hex_text(serial@)
                        + ":"@,
                ),
            ] + matches.map_values(
                |platform: Platform<C>|
                    ReportLineView::Connection {
                        bullet: "- "@,
                        connection: platform.connection,
                    },
            ),
        }
    }

    /// Tells the user why no platform was selected.
    pub fn explain<'a, C>(&self, error: &'a SelectError<C>) -> (report: Report<'a, C>)
        requires
            self.can_explain(error@),
        ensures
            report.message@ == self.message(error@),
            report.lines@.map_values(|line: ReportLine<'a, C>| line@) == self.lines(error@),
    {
        let mut lines: Vec<ReportLine<'a, C>> = Vec::new();
        let message = match error {
            SelectError::NotFound => match &self.serial {
                None => "no connected platforms".to_string(),
                Some(serial) => "no connected platforms with serial=".to_string().concat(
                    serial.to_string().as_str(),
                ),
            },
            SelectError::Ambiguous(matches) => {
                let message = match &self.serial {
                    None => {
                        lines.push(
                            ReportLine::Text(
                                "Choose one of the connected platforms using its serial:".to_string(),
                            ),
                        );
                        "more than one connected platform".to_string()
                    },
                    Some(serial) => {
                        let serial = serial.to_string();
                        lines.push(
                            ReportLine::Text(
                                "Multiple connected platforms with serial=".to_string().concat(
                                    serial.as_str(),
                                ).concat(":"),
                            ),
                        );
                        "more than one connected platform with serial=".to_string().concat(
                            serial.as_str(),
                        )
                    },
                };
                let mut i: usize = 0;
                while i < matches.len()
                    invariant
                        i <= matches.len(),
                        error@ == SelectErrorView::Ambiguous(matches@),
                        self.can_explain(error@),
                        lines@.map_values(|line: ReportLine<'a, C>| line@) == self.lines(
                            error@,
                        ).take(i + 1),
                    decreases matches.len() - i,
                {
                    let ghost before = lines@.map_values(|line: ReportLine<'a, C>| line@);
                    let line = match &self.serial {
                        None => ReportLine::Text(
                            "--serial=".to_string().concat(
                                crate::hex::encode(matches[i].serial.as_slice()).as_str(),
                            ),
                        ),
                        Some(_) => ReportLine::Connection {
                            bullet: "- ".to_string(),
                            connection: &matches[i].connection,
                        },
                    };
                    assert(line@ == self.lines(error@)[i + 1]);
                    lines.push(line);
                    assert(lines@.map_values(|line: ReportLine<'a, C>| line@) =~= before.push(
                        line@,
                    ));
                    i = i + 1;
                }
                message
            },
        };
        assert(lines@.map_values(|line: ReportLine<'a, C>| line@) =~= self.lines(error@));
        Report { lines, message }
    }

    /// What a search ends with that takes these steps: each candidate that it asks for
    /// answers with the first outcome that is left.
    pub open spec fn driven<D, C, E>(
        self,
        step: ConnectStepView<D, C, E>,
        probes: Seq<Result<Platform<C>, E>>,
    ) -> Result<C, ConnectErrorView<C, E>>
        decreases
            match step {
                ConnectStepView::Open { search, .. } => search.pending.len() + 1,
                ConnectStepView::Done(_) => 0,
            },
    {
        match step {
            ConnectStepView::Open { search, .. } => self.driven(
                self.after(search, probes[0]),
                probes.skip(1),
            ),
            ConnectStepView::Done(r) => r,
        }
    }

    /// The candidates that such a search opens, in order, each with its timeout.
    pub open spec fn opened<D, C, E>(
        self,
        step: ConnectStepView<D, C, E>,
        probes: Seq<Result<Platform<C>, E>>,
    ) -> Seq<(D, Duration)>
        decreases
            match step {
                ConnectStepView::Open { search, .. } => search.pending.len() + 1,
                ConnectStepView::Done(_) => 0,
            },
    {
        match step {
            ConnectStepView::Open { candidate, timeout, search } => seq![(candidate, timeout)]
                + self.opened(self.after(search, probes[0]), probes.skip(1)),
            ConnectStepView::Done(_) => seq![],
        }
    }

    /// The platforms among the outcomes that match.
    pub open spec fn matching<C, E>(self, probes: Seq<Result<Platform<C>, E>>) -> Seq<
        Platform<C>,
    > {
        probes.map_values(|probe: Result<Platform<C>, E>| probe->Ok_0).filter(
            |platform: Platform<C>| self.spec_accepts(platform.serial@),
        )
    }
}

/// The candidates, each with the timeout.
pub open spec fn with_timeout<D>(candidates: Seq<D>, timeout: Duration) -> Seq<(D, Duration)> {
    candidates.map_values(|candidate: D| (candidate, timeout))
}

proof fn lemma_matching_first<C, E>(
    options: ConnectionOptions,
    probes: Seq<Result<Platform<C>, E>>,
)
    requires
        probes.len() > 0,
    ensures
        options.matching(probes) == options.kept(seq![], probes[0]->Ok_0) + options.matching(
            probes.skip(1),
        ),
    decreases probes.len(),
{
    reveal(Seq::filter);
    let values = probes.map_values(|probe: Result<Platform<C>, E>| probe->Ok_0);
    let rest = probes.skip(1).map_values(|probe: Result<Platform<C>, E>| probe->Ok_0);
    if probes.len() == 1 {
        assert(values.drop_last() =~= seq![]);
        assert(rest =~= seq![]);
    } else {
        lemma_matching_first(options, probes.drop_last());
        assert(values.drop_last() =~= probes.drop_last().map_values(
            |probe: Result<Platform<C>, E>| probe->Ok_0,
        ));
        assert(rest.drop_last() =~= probes.drop_last().skip(1).map_values(
            |probe: Result<Platform<C>, E>| probe->Ok_0,
        ));
        assert(values.last() == rest.last());
    }
    assert(options.matching(probes) =~= options.kept(seq![], probes[0]->Ok_0)
        + options.matching(probes.skip(1)));
}

proof fn lemma_driven<D, C, E>(
    options: ConnectionOptions,
    search: SearchView<D, C>,
    probes: Seq<Result<Platform<C>, E>>,
)
    requires
        probes.len() == search.pending.len(),
        forall|i: int| 0 <= i < probes.len() ==> probes[i] is Ok,
    ensures
        options.driven(options.next::<D, C, E>(search), probes)
            == ConnectionOptions::selected::<C, E>(
            search.matches + options.matching(probes),
        ),
        options.opened(options.next::<D, C, E>(search), probes) == with_timeout(
            search.pending,
            options.timeout,
        ),
    decreases probes.len(),
{
    reveal(Seq::filter);
    if probes.len() == 0 {
        assert(search.matches + options.matching(probes) =~= search.matches);
        assert(with_timeout(search.pending, options.timeout) =~= seq![]);
    } else {
        let platform = probes[0]->Ok_0;
        let rest = SearchView {
            pending: search.pending.skip(1),
            matches: options.kept(search.matches, platform),
        };
        lemma_driven(options, rest, probes.skip(1));
        lemma_matching_first(options, probes);
        assert(options.kept(search.matches, platform) =~= search.matches + options.kept(
            seq![],
            platform,
        ));
        assert(rest.matches + options.matching(probes.skip(1)) =~= search.matches
            + options.matching(probes));
        assert(with_timeout(search.pending, options.timeout) =~= seq![
            (search.pending[0], options.timeout),
        ] + with_timeout(rest.pending, options.timeout));
    }
}

proof fn lemma_driven_to_failure<D, C, E>(
    options: ConnectionOptions,
    search: SearchView<D, C>,
    probes: Seq<Result<Platform<C>, E>>,
    k: int,
)
    requires
        0 <= k < search.pending.len(),
        k < probes.len(),
        probes[k] is Err,
        forall|i: int| 0 <= i < k ==> probes[i] is Ok,
    ensures
        options.driven(options.next::<D, C, E>(search), probes) == Err::<
            C,
            ConnectErrorView<C, E>,
        >(ConnectErrorView::Device(probes[k]->Err_0)),
        options.opened(options.next::<D, C, E>(search), probes) == with_timeout(
            search.pending.take(k + 1),
            options.timeout,
        ),
    decreases k,
{
    let search1 = SearchView { pending: search.pending.skip(1), ..search };
    if k == 0 {
        let after = options.after::<D, C, E>(search1, probes[0]);
        assert(options.driven(after, probes.skip(1)) == Err::<C, ConnectErrorView<C, E>>(
            ConnectErrorView::Device(probes[0]->Err_0),
        ));
        assert(options.opened(after, probes.skip(1)) =~= seq![]);
    } else {
        let platform = probes[0]->Ok_0;
        let rest = SearchView {
            pending: search.pending.skip(1),
            matches: options.kept(search.matches, platform),
        };
        lemma_driven_to_failure(options, rest, probes.skip(1), k - 1);
    }
    assert(with_timeout(search.pending.take(k + 1), options.timeout) =~= seq![
        (search.pending[0], options.timeout),
    ] + with_timeout(search.pending.skip(1).take(k), options.timeout));
}

/// A search in which no candidate fails opens each of them once, in order and with the
/// timeout. It ends with the one platform that matches, with an error if none does, and
/// with an error that lists them if several do.
pub proof fn law_search_selects_the_only_match<D, C, E>(
    options: ConnectionOptions,
    candidates: Seq<D>,
    probes: Seq<Result<Platform<C>, E>>,
)
    requires
        probes.len() == candidates.len(),
        forall|i: int| 0 <= i < probes.len() ==> probes[i] is Ok,
    ensures
        options.driven(options.start::<D, C, E>(Ok(candidates)), probes)
            == ConnectionOptions::selected::<C, E>(options.matching(probes)),
        options.opened(options.start::<D, C, E>(Ok(candidates)), probes) == with_timeout(
            candidates,
            options.timeout,
        ),
{
    let search = SearchView { pending: candidates, matches: seq![] };
    lemma_driven::<D, C, E>(options, search, probes);
    assert(search.matches + options.matching(probes) =~= options.matching(probes));
}

/// The first candidate that fails ends a search with its error, and those after it are not
/// opened.
pub proof fn law_search_ends_with_the_first_failure<D, C, E>(
    options: ConnectionOptions,
    candidates: Seq<D>,
    probes: Seq<Result<Platform<C>, E>>,
    k: int,
)
    requires
        0 <= k < probes.len(),
        k < candidates.len(),
        probes[k] is Err,
        forall|i: int| 0 <= i < k ==> probes[i] is Ok,
    ensures
        options.driven(options.start::<D, C, E>(Ok(candidates)), probes) == Err::<
            C,
            ConnectErrorView<C, E>,
        >(ConnectErrorView::Device(probes[k]->Err_0)),
        options.opened(options.start::<D, C, E>(Ok(candidates)), probes) == with_timeout(
            candidates.take(k + 1),
            options.timeout,
        ),
{
    lemma_driven_to_failure::<D, C, E>(
        options,
        SearchView { pending: candidates, matches: seq![] },
        probes,
        k,
    );
}

/// Whether the outcome at this place, and no other, is a platform that is looked for.
pub open spec fn only_match<C, E>(
    options: ConnectionOptions,
    probes: Seq<Result<Platform<C>, E>>,
    i: int,
) -> bool {
    &&& 0 <= i < probes.len()
    &&& options.spec_accepts(probes[i]->Ok_0.serial@)
    &&& forall|j: int|
        0 <= j < probes.len() && j != i ==> !options.spec_accepts(
            (#[trigger] probes[j])->Ok_0.serial@,
        )
}

proof fn lemma_no_match<C, E>(options: ConnectionOptions, probes: Seq<Result<Platform<C>, E>>)
    ensures
        options.matching(probes).len() == 0 <==> forall|j: int|
            0 <= j < probes.len() ==> !options.spec_accepts(
                (#[trigger] probes[j])->Ok_0.serial@,
            ),
    decreases probes.len(),
{
    reveal(Seq::filter);
    if probes.len() > 0 {
        let rest = probes.skip(1);
        lemma_matching_first(options, probes);
        lemma_no_match(options, rest);
        assert forall|j: int| 0 <= j < rest.len() implies rest[j] == probes[j + 1] by {}
        if options.matching(probes).len() == 0 {
            assert forall|j: int| 0 <= j < probes.len() implies !options.spec_accepts(
                (#[trigger] probes[j])->Ok_0.serial@,
            ) by {
                if j > 0 {
                    assert(probes[j] == rest[j - 1]);
                }
            }
        }
    }
}

proof fn lemma_only_match<C, E>(
    options: ConnectionOptions,
    probes: Seq<Result<Platform<C>, E>>,
    i: int,
)
    requires
        only_match(options, probes, i),
    ensures
        options.matching(probes) == seq![probes[i]->Ok_0],
    decreases probes.len(),
{
    let rest = probes.skip(1);
    lemma_matching_first(options, probes);
    if i == 0 {
        lemma_no_match(options, rest);
        assert forall|j: int| 0 <= j < rest.len() implies !options.spec_accepts(
            (#[trigger] rest[j])->Ok_0.serial@,
        ) by {
            assert(rest[j] == probes[j + 1]);
        }
    } else {
        assert forall|j: int| 0 <= j < rest.len() && j != i - 1 implies !options.spec_accepts(
            (#[trigger] rest[j])->Ok_0.serial@,
        ) by {
            assert(rest[j] == probes[j + 1]);
        }
        lemma_only_match(options, rest, i - 1);
    }
    assert(options.matching(probes) =~= seq![probes[i]->Ok_0]);
}

proof fn lemma_one_match<C, E>(options: ConnectionOptions, probes: Seq<Result<Platform<C>, E>>) -> (i:
    int)
    requires
        options.matching(probes).len() == 1,
    ensures
        only_match(options, probes, i),
    decreases probes.len(),
{
    reveal(Seq::filter);
    let rest = probes.skip(1);
    if probes.len() == 0 {
        assert(false);
    }
    lemma_matching_first(options, probes);
    if options.spec_accepts(probes[0]->Ok_0.serial@) {
        lemma_no_match(options, rest);
        assert forall|j: int| 0 <= j < probes.len() && j != 0 implies !options.spec_accepts(
            (#[trigger] probes[j])->Ok_0.serial@,
        ) by {
            assert(probes[j] == rest[j - 1]);
        }
        0
    } else {
        let i = lemma_one_match(options, rest);
        assert forall|j: int| 0 <= j < probes.len() && j != i + 1 implies !options.spec_accepts(
            (#[trigger] probes[j])->Ok_0.serial@,
        ) by {
            if j > 0 {
                assert(probes[j] == rest[j - 1]);
            }
        }
        i + 1
    }
}

/// A search in which no candidate fails ends with a connection exactly if one platform,
/// and no other, is looked for: every one, without a serial, or the one with that serial.
/// The connection is the one to that platform.
pub proof fn law_search_connects_iff_one_platform_matches<D, C, E>(
    options: ConnectionOptions,
    candidates: Seq<D>,
    probes: Seq<Result<Platform<C>, E>>,
)
    requires
        probes.len() == candidates.len(),
        forall|i: int| 0 <= i < probes.len() ==> probes[i] is Ok,
    ensures
        ({
            let r = options.driven(options.start::<D, C, E>(Ok(candidates)), probes);
            &&& r is Ok <==> exists|i: int| only_match(options, probes, i)
            &&& forall|i: int| #[trigger]
                only_match(options, probes, i) ==> r->Ok_0 == probes[i]->Ok_0.connection
        }),
{
    law_search_selects_the_only_match::<D, C, E>(options, candidates, probes);
    assert forall|i: int| #[trigger] only_match(options, probes, i) implies options.matching(probes)
        == seq![probes[i]->Ok_0] by {
        lemma_only_match(options, probes, i);
    }
    if options.matching(probes).len() == 1 {
        let i = lemma_one_match(options, probes);
        assert(only_match(options, probes, i));
    }
}

/// Whether the two lists hold the same items, each as often, in whatever order.
pub open spec fn same_items<T>(a: Seq<T>, b: Seq<T>) -> bool {
    a.to_multiset() == b.to_multiset()
}

proof fn lemma_same_items<T>(a: Seq<T>, b: Seq<T>)
    requires
        same_items(a, b),
    ensures
        a.len() == b.len(),
        forall|i: int| 0 <= i < a.len() ==> b.contains(#[trigger] a[i]),
        forall|i: int| 0 <= i < b.len() ==> a.contains(#[trigger] b[i]),
{
    broadcast use vstd::seq_lib::group_to_multiset_ensures;

    assert(a.to_multiset().len() == b.to_multiset().len());
    assert forall|i: int| 0 <= i < a.len() implies b.contains(#[trigger] a[i]) by {
        assert(a.contains(a[i]));
        assert(b.to_multiset().count(a[i]) > 0);
    }
    assert forall|i: int| 0 <= i < b.len() implies a.contains(#[trigger] b[i]) by {
        assert(b.contains(b[i]));
        assert(a.to_multiset().count(b[i]) > 0);
    }
}

proof fn lemma_first_to_multiset<T>(s: Seq<T>)
    requires
        s.len() > 0,
    ensures
        s.to_multiset() == s.skip(1).to_multiset().insert(s[0]),
{
    broadcast use vstd::seq_lib::group_to_multiset_ensures;

    assert(s =~= s.skip(1).insert(0, s[0]));
}

proof fn lemma_same_items_mapped<T, U>(a: Seq<T>, b: Seq<T>, f: spec_fn(T) -> U)
    requires
        same_items(a, b),
    ensures
        same_items(a.map_values(f), b.map_values(f)),
    decreases a.len(),
{
    broadcast use vstd::seq_lib::group_to_multiset_ensures;

    lemma_same_items(a, b);
    if a.len() == 0 {
        assert(a.map_values(f) =~= b.map_values(f));
    } else {
        assert(b.contains(a[0]));
        let k = b.index_of(a[0]);
        let rest = b.remove(k);
        lemma_first_to_multiset(a);
        assert(a.skip(1).to_multiset() =~= rest.to_multiset());
        lemma_same_items_mapped(a.skip(1), rest, f);
        assert(a.map_values(f).skip(1) =~= a.skip(1).map_values(f));
        lemma_first_to_multiset(a.map_values(f));
        assert(b.map_values(f) =~= rest.map_values(f).insert(k, f(a[0])));
    }
}

proof fn lemma_matching_count<C, E>(
    options: ConnectionOptions,
    probes: Seq<Result<Platform<C>, E>>,
    platform: Platform<C>,
)
    requires
        forall|i: int| 0 <= i < probes.len() ==> probes[i] is Ok,
    ensures
        options.matching(probes).to_multiset().count(platform) == if options.spec_accepts(
            platform.serial@,
        ) {
            probes.to_multiset().count(Ok(platform))
        } else {
            0
        },
    decreases probes.len(),
{
    broadcast use vstd::seq_lib::group_to_multiset_ensures;

    if probes.len() == 0 {
        reveal(Seq::filter);
        assert(options.matching(probes) =~= seq![]);
    } else {
        let rest = probes.skip(1);
        let first = probes[0]->Ok_0;
        assert(probes[0] == Ok::<Platform<C>, E>(first));
        lemma_matching_count(options, rest, platform);
        lemma_first_to_multiset(probes);
        lemma_matching_first(options, probes);
        let found = options.matching(probes);
        if options.spec_accepts(first.serial@) {
            assert(found[0] == first);
            assert(found.skip(1) =~= options.matching(rest));
            lemma_first_to_multiset(found);
        } else {
            assert(found =~= options.matching(rest));
        }
    }
}

/// The order of the candidates does not matter to a search in which none of them fails.
/// Two searches with the same outcomes, in whatever order, connect to the same platform or
/// none of them connects. Then they find no platform, or the same ones, and the report has
/// the same message, the same first line, and the same lines, in whatever order.
pub proof fn law_search_ignores_the_order<D, C, E>(
    options: ConnectionOptions,
    candidates1: Seq<D>,
    probes1: Seq<Result<Platform<C>, E>>,
    candidates2: Seq<D>,
    probes2: Seq<Result<Platform<C>, E>>,
)
    requires
        probes1.len() == candidates1.len(),
        probes2.len() == candidates2.len(),
        same_items(probes1, probes2),
        forall|i: int| 0 <= i < probes1.len() ==> probes1[i] is Ok,
    ensures
        ({
            let r1 = options.driven(options.start::<D, C, E>(Ok(candidates1)), probes1);
            let r2 = options.driven(options.start::<D, C, E>(Ok(candidates2)), probes2);
            match (r1, r2) {
                (Ok(connection1), Ok(connection2)) => connection1 == connection2,
                (Err(ConnectErrorView::Select(error1)), Err(ConnectErrorView::Select(error2))) => {
                    let lines1 = options.lines(error1);
                    let lines2 = options.lines(error2);
                    &&& match (error1, error2) {
                        (SelectErrorView::NotFound, SelectErrorView::NotFound) => true,
                        (
                            SelectErrorView::Ambiguous(matches1),
                            SelectErrorView::Ambiguous(matches2),
                        ) => same_items(matches1, matches2),
                        _ => false,
                    }
                    &&& options.message(error1) == options.message(error2)
                    &&& same_items(lines1, lines2)
                    &&& lines1.len() > 0 ==> lines1[0] == lines2[0]
                },
                _ => false,
            }
        }),
{
    lemma_same_items(probes1, probes2);
    assert forall|i: int| 0 <= i < probes2.len() implies probes2[i] is Ok by {
        assert(probes1.contains(probes2[i]));
    }
    law_search_selects_the_only_match::<D, C, E>(options, candidates1, probes1);
    law_search_selects_the_only_match::<D, C, E>(options, candidates2, probes2);
    let matches1 = options.matching(probes1);
    let matches2 = options.matching(probes2);
    assert forall|platform: Platform<C>|
        matches1.to_multiset().count(platform) == matches2.to_multiset().count(platform) by {
        lemma_matching_count(options, probes1, platform);
        lemma_matching_count(options, probes2, platform);
    }
    assert(matches1.to_multiset() =~= matches2.to_multiset());
    lemma_same_items(matches1, matches2);
    if matches1.len() == 1 {
        assert(matches2.contains(matches1[0]));
    } else if matches1.len() > 1 {
        let lines1 = options.lines(SelectErrorView::Ambiguous(matches1));
        let lines2 = options.lines(SelectErrorView::Ambiguous(matches2));
        let line = match options.serial {
            None => |platform: Platform<C>|
                ReportLineView::<C>::Text(
                    "--serial="@ + crate::hex::hex_text(platform.serial@),
                ),
            Some(_) => |platform: Platform<C>|
                ReportLineView::Connection { bullet: "- "@, connection: platform.connection },
        };
        lemma_same_items_mapped(matches1, matches2, line);
        assert(lines1.skip(1) =~= matches1.map_values(line));
        assert(lines2.skip(1) =~= matches2.map_values(line));
        lemma_first_to_multiset(lines1);
        lemma_first_to_multiset(lines2);
    }
}

proof fn lemma_first_failure<T, E>(outcomes: Seq<Result<T, E>>, i: int) -> (k: int)
    requires
        0 <= i < outcomes.len(),
        outcomes[i] is Err,
    ensures
        0 <= k <= i,
        outcomes[k] is Err,
        forall|j: int| 0 <= j < k ==> outcomes[j] is Ok,
    decreases i,
{
    if exists|j: int| 0 <= j < i && outcomes[j] is Err {
        let j = choose|j: int| 0 <= j < i && outcomes[j] is Err;
        lemma_first_failure(outcomes, j)
    } else {
        i
    }
}

/// Whether some candidate fails does not depend on their order either: two searches with
/// the same outcomes, in whatever order, of which one is a failure, both end with the
/// failure of a candidate.
pub proof fn law_failure_ignores_the_order<D, C, E>(
    options: ConnectionOptions,
    candidates1: Seq<D>,
    probes1: Seq<Result<Platform<C>, E>>,
    candidates2: Seq<D>,
    probes2: Seq<Result<Platform<C>, E>>,
)
    requires
        probes1.len() == candidates1.len(),
        probes2.len() == candidates2.len(),
        same_items(probes1, probes2),
        exists|i: int| 0 <= i < probes1.len() && probes1[i] is Err,
    ensures
        exists|i: int|
            0 <= i < probes1.len() && (#[trigger] probes1[i]) is Err && options.driven(
                options.start::<D, C, E>(Ok(candidates1)),
                probes1,
            ) == Err::<C, ConnectErrorView<C, E>>(ConnectErrorView::Device(probes1[i]->Err_0)),
        exists|i: int|
            0 <= i < probes1.len() && (#[trigger] probes1[i]) is Err && options.driven(
                options.start::<D, C, E>(Ok(candidates2)),
                probes2,
            ) == Err::<C, ConnectErrorView<C, E>>(ConnectErrorView::Device(probes1[i]->Err_0)),
{
    lemma_same_items(probes1, probes2);
    let i = choose|i: int| 0 <= i < probes1.len() && probes1[i] is Err;
    let k1 = lemma_first_failure(probes1, i);
    law_search_ends_with_the_first_failure::<D, C, E>(options, candidates1, probes1, k1);
    assert(probes2.contains(probes1[i]));
    let k2 = lemma_first_failure(probes2, probes2.index_of(probes1[i]));
    law_search_ends_with_the_first_failure::<D, C, E>(options, candidates2, probes2, k2);
    assert(probes1.contains(probes2[k2]));
    assert(probes1[probes1.index_of(probes2[k2])] == probes2[k2]);
}

/// A serial that a report suggests does what the report says: for platforms that each have
/// their own serial, a search for the serial that is read from its text connects to the
/// platform that has it.
pub proof fn law_suggested_serial_connects<D, C, E>(
    options: ConnectionOptions,
    candidates: Seq<D>,
    probes: Seq<Result<Platform<C>, E>>,
    i: int,
)
    requires
        probes.len() == candidates.len(),
        forall|j: int| 0 <= j < probes.len() ==> probes[j] is Ok,
        0 <= i < probes.len(),
        forall|j: int|
            0 <= j < probes.len() && j != i ==> (#[trigger] probes[j])->Ok_0.serial@
                != probes[i]->Ok_0.serial@,
        options.serial is Some,
        options.serial->0@ == crate::hex::hex_bytes(
            vstd::utf8::encode_utf8(crate::hex::hex_text(probes[i]->Ok_0.serial@)),
        ),
    ensures
        options.driven(options.start::<D, C, E>(Ok(candidates)), probes) == Ok::<
            C,
            ConnectErrorView<C, E>,
        >(probes[i]->Ok_0.connection),
{
    crate::hex::law_shown_bytes_are_read_back(probes[i]->Ok_0.serial@);
    assert(only_match(options, probes, i));
    law_search_connects_iff_one_platform_matches::<D, C, E>(options, candidates, probes);
}

/// Lists the connected platforms.
pub struct PlatformList {
    /// Timeout to send or receive on the platform protocol.
    pub timeout: Duration,
}

/// A listing of the platforms: `D` is a candidate, `I` what a platform tells of itself.
pub struct Listing<D, I> {
    /// The timeout of the connections.
    pub timeout: Duration,
    /// The candidates that were not opened yet, in order.
    pub pending: Vec<D>,
    /// What the others told, in order.
    pub platforms: Vec<I>,
}

/// What a listing is.
#[verifier::ext_equal]
pub struct ListingView<D, I> {
    pub timeout: Duration,
    pub pending: Seq<D>,
    pub platforms: Seq<I>,
}

impl<D, I> View for Listing<D, I> {
    type V = ListingView<D, I>;

    open spec fn view(&self) -> ListingView<D, I> {
        ListingView {
            timeout: self.timeout,
            pending: self.pending@,
            platforms: self.platforms@,
        }
    }
}

/// What to do next in a listing.
pub enum ListStep<D, I, E> {
    /// Open this candidate with this timeout, ask it for its information, and hand the
    /// outcome to `Listing::probed`.
    Open {
        /// The candidate.
        candidate: D,
        /// The timeout of the connection.
        timeout: Duration,
        /// The listing as it goes on.
        listing: Listing<D, I>,
    },
    /// The listing is over.
    Done(Result<Vec<I>, E>),
}

/// What a step of a listing is.
#[verifier::ext_equal]
pub enum ListStepView<D, I, E> {
    Open { candidate: D, timeout: Duration, listing: ListingView<D, I> },
    Done(Result<Seq<I>, E>),
}

impl<D, I, E> View for ListStep<D, I, E> {
    type V = ListStepView<D, I, E>;

    open spec fn view(&self) -> ListStepView<D, I, E> {
        match *self {
            ListStep::Open { candidate, timeout, listing } => ListStepView::Open {
                candidate,
                timeout,
                listing: listing@,
            },
            ListStep::Done(Ok(platforms)) => ListStepView::Done(Ok(platforms@)),
            ListStep::Done(Err(error)) => ListStepView::Done(Err(error)),
        }
    }
}

impl<D, I> ListingView<D, I> {
    /// How a listing goes on: with the first candidate, if one is left.
    pub open spec fn next<E>(self) -> ListStepView<D, I, E> {
        if self.pending.len() > 0 {
            ListStepView::Open {
                candidate: self.pending[0],
                timeout: self.timeout,
                listing: ListingView { pending: self.pending.skip(1), ..self },
            }
        } else {
            ListStepView::Done(Ok(self.platforms))
        }
    }

    /// How a listing goes on once a candidate answered or failed.
    pub open spec fn after<E>(self, probe: Result<I, E>) -> ListStepView<D, I, E> {
        match probe {
            Ok(platform) => (ListingView { platforms: self.platforms.push(platform), ..self }).next(),
            Err(error) => ListStepView::Done(Err(error)),
        }
    }
}

impl<D, I> Listing<D, I> {
    /// Goes on with a listing.
    fn proceed<E>(self) -> (step: ListStep<D, I, E>)
        ensures
            step@ == self@.next::<E>(),
    {
        let mut listing = self;
        if listing.pending.len() > 0 {
            let candidate = listing.pending.remove(0);
            ListStep::Open { candidate, timeout: listing.timeout, listing }
        } else {
            ListStep::Done(Ok(listing.platforms))
        }
    }

    /// Goes on with a listing once the candidate answered or failed.
    pub fn probed<E>(self, probe: Result<I, E>) -> (step: ListStep<D, I, E>)
        ensures
            step@ == self@.after(probe),
    {
        let mut listing = self;
        match probe {
            Ok(platform) => {
                listing.platforms.push(platform);
                listing.proceed()
            },
            Err(error) => ListStep::Done(Err(error)),
        }
    }
}

impl PlatformList {
    /// The line to print before the candidates are opened.
    pub open spec fn header(count: nat) -> Seq<char> {
        "There are "@ + crate::text::decimal(count) + " connected platforms:"@
    }

    /// Starts to list the candidates: returns the line to print first, and what to do
    /// after that.
    pub fn run<D, I, E>(self, listed: Result<Vec<D>, E>) -> (r: Result<
        (String, ListStep<D, I, E>),
        E,
    >)
        ensures
            match listed {
                Ok(candidates) => r is Ok && r->Ok_0.0@ == PlatformList::header(candidates@.len())
                    && r->Ok_0.1@ == (ListingView {
                    timeout: self.timeout,
                    pending: candidates@,
                    platforms: Seq::<I>::empty(),
                }).next::<E>(),
                Err(error) => r == Err::<(String, ListStep<D, I, E>), E>(error),
            },
    {
        match listed {
            Ok(candidates) => {
                let count = crate::text::decimal_string(candidates.len() as u128);
                let header = "There are ".to_string().concat(count.as_str()).concat(
                    " connected platforms:",
                );
                let listing = Listing {
                    timeout: self.timeout,
                    pending: candidates,
                    platforms: Vec::new(),
                };
                Ok((header, listing.proceed()))
            },
            Err(error) => Err(error),
        }
    }
}

/// What a listing ends with that takes these steps: each candidate that it asks for
/// answers with the first outcome that is left.
pub open spec fn listed<D, I, E>(step: ListStepView<D, I, E>, probes: Seq<Result<I, E>>) -> Result<
    Seq<I>,
    E,
>
    decreases
        match step {
            ListStepView::Open { listing, .. } => listing.pending.len() + 1,
            ListStepView::Done(_) => 0,
        },
{
    match step {
        ListStepView::Open { listing, .. } => listed(listing.after(probes[0]), probes.skip(1)),
        ListStepView::Done(r) => r,
    }
}

/// The candidates that such a listing opens, in order, each with its timeout.
pub open spec fn listed_from<D, I, E>(
    step: ListStepView<D, I, E>,
    probes: Seq<Result<I, E>>,
) -> Seq<(D, Duration)>
    decreases
        match step {
            ListStepView::Open { listing, .. } => listing.pending.len() + 1,
            ListStepView::Done(_) => 0,
        },
{
    match step {
        ListStepView::Open { candidate, timeout, listing } => seq![(candidate, timeout)]
            + listed_from(listing.after(probes[0]), probes.skip(1)),
        ListStepView::Done(_) => seq![],
    }
}

proof fn lemma_listed<D, I, E>(listing: ListingView<D, I>, probes: Seq<Result<I, E>>)
    requires
        probes.len() == listing.pending.len(),
        forall|i: int| 0 <= i < probes.len() ==> probes[i] is Ok,
    ensures
        listed(listing.next(), probes) == Ok::<Seq<I>, E>(
            listing.platforms + probes.map_values(|probe: Result<I, E>| probe->Ok_0),
        ),
        listed_from(listing.next(), probes) == with_timeout(listing.pending, listing.timeout),
    decreases probes.len(),
{
    let told = probes.map_values(|probe: Result<I, E>| probe->Ok_0);
    if probes.len() == 0 {
        assert(listing.platforms + told =~= listing.platforms);
        assert(with_timeout(listing.pending, listing.timeout) =~= seq![]);
    } else {
        let rest = ListingView {
            pending: listing.pending.skip(1),
            platforms: listing.platforms.push(probes[0]->Ok_0),
            ..listing
        };
        lemma_listed(rest, probes.skip(1));
        assert(rest.platforms + probes.skip(1).map_values(|probe: Result<I, E>| probe->Ok_0)
            =~= listing.platforms + told);
        assert(with_timeout(listing.pending, listing.timeout) =~= seq![
            (listing.pending[0], listing.timeout),
        ] + with_timeout(rest.pending, listing.timeout));
    }
}

/// A listing in which no candidate fails opens each of them once, in order and with the
/// timeout, and ends with what all of them told, in that order.
pub proof fn law_listing_tells_of_all<D, I, E>(
    timeout: Duration,
    candidates: Seq<D>,
    probes: Seq<Result<I, E>>,
)
    requires
        probes.len() == candidates.len(),
        forall|i: int| 0 <= i < probes.len() ==> probes[i] is Ok,
    ensures
        listed(
            (ListingView { timeout, pending: candidates, platforms: Seq::<I>::empty() }).next(),
            probes,
        ) == Ok::<Seq<I>, E>(probes.map_values(|probe: Result<I, E>| probe->Ok_0)),
        listed_from(
            (ListingView { timeout, pending: candidates, platforms: Seq::<I>::empty() }).next(),
            probes,
        ) == with_timeout(candidates, timeout),
{
    let listing = ListingView { timeout, pending: candidates, platforms: Seq::<I>::empty() };
    lemma_listed(listing, probes);
    let told = probes.map_values(|probe: Result<I, E>| probe->Ok_0);
    assert(listing.platforms + told =~= told);
}

/// The order of the candidates does not matter to what a listing tells, if none of them
/// fails, but for its order: two listings with the same outcomes, in whatever order, print
/// the same line first, and tell the same.
pub proof fn law_listing_ignores_the_order<D, I, E>(
    timeout: Duration,
    candidates1: Seq<D>,
    probes1: Seq<Result<I, E>>,
    candidates2: Seq<D>,
    probes2: Seq<Result<I, E>>,
)
    requires
        probes1.len() == candidates1.len(),
        probes2.len() == candidates2.len(),
        same_items(probes1, probes2),
        forall|i: int| 0 <= i < probes1.len() ==> probes1[i] is Ok,
    ensures
        PlatformList::header(candidates1.len()) == PlatformList::header(candidates2.len()),
        ({
            let none = Seq::<I>::empty();
            let start1 = ListingView { timeout, pending: candidates1, platforms: none };
            let start2 = ListingView { timeout, pending: candidates2, platforms: none };
            let r1 = listed(start1.next(), probes1);
            let r2 = listed(start2.next(), probes2);
            r1 is Ok && r2 is Ok && same_items(r1->Ok_0, r2->Ok_0)
        }),
{
    lemma_same_items(probes1, probes2);
    assert forall|i: int| 0 <= i < probes2.len() implies probes2[i] is Ok by {
        assert(probes1.contains(probes2[i]));
    }
    law_listing_tells_of_all(timeout, candidates1, probes1);
    law_listing_tells_of_all(timeout, candidates2, probes2);
    lemma_same_items_mapped(probes1, probes2, |probe: Result<I, E>| probe->Ok_0);
}

proof fn lemma_listed_to_failure<D, I, E>(
    listing: ListingView<D, I>,
    probes: Seq<Result<I, E>>,
    k: int,
)
    requires
        0 <= k < listing.pending.len(),
        k < probes.len(),
        probes[k] is Err,
        forall|i: int| 0 <= i < k ==> probes[i] is Ok,
    ensures
        listed(listing.next(), probes) == Err::<Seq<I>, E>(probes[k]->Err_0),
        listed_from(listing.next(), probes) == with_timeout(
            listing.pending.take(k + 1),
            listing.timeout,
        ),
    decreases k,
{
    let opened = ListingView { pending: listing.pending.skip(1), ..listing };
    if k == 0 {
        assert(listed(opened.after(probes[0]), probes.skip(1)) == Err::<Seq<I>, E>(
            probes[0]->Err_0,
        ));
        assert(listed_from(opened.after(probes[0]), probes.skip(1)) =~= seq![]);
    } else {
        let rest = ListingView {
            platforms: listing.platforms.push(probes[0]->Ok_0),
            ..opened
        };
        lemma_listed_to_failure(rest, probes.skip(1), k - 1);
    }
    assert(with_timeout(listing.pending.take(k + 1), listing.timeout) =~= seq![
        (listing.pending[0], listing.timeout),
    ] + with_timeout(listing.pending.skip(1).take(k), listing.timeout));
}

/// The first candidate that fails ends a listing with its error, and those after it are not
/// opened.
pub proof fn law_listing_ends_with_the_first_failure<D, I, E>(
    timeout: Duration,
    candidates: Seq<D>,
    probes: Seq<Result<I, E>>,
    k: int,
)
    requires
        0 <= k < probes.len(),
        k < candidates.len(),
        probes[k] is Err,
        forall|i: int| 0 <= i < k ==> probes[i] is Ok,
    ensures
        listed(
            (ListingView { timeout, pending: candidates, platforms: Seq::<I>::empty() }).next(),
            probes,
        ) == Err::<Seq<I>, E>(probes[k]->Err_0),
        listed_from(
            (ListingView { timeout, pending: candidates, platforms: Seq::<I>::empty() }).next(),
            probes,
        ) == with_timeout(candidates.take(k + 1), timeout),
{
    lemma_listed_to_failure(
        ListingView { timeout, pending: candidates, platforms: Seq::<I>::empty() },
        probes,
        k,
    );
}

proof fn lemma_matching_is<C, E>(
    options: ConnectionOptions,
    probes: Seq<Result<Platform<C>, E>>,
    wanted: spec_fn(Platform<C>) -> bool,
)
    requires
        forall|platform: Platform<C>| #[trigger]
            wanted(platform) == options.spec_accepts(platform.serial@),
    ensures
        options.matching(probes) == probes.map_values(
            |probe: Result<Platform<C>, E>| probe->Ok_0,
        ).filter(wanted),
    decreases probes.len(),
{
    reveal(Seq::filter);
    let all = probes.map_values(|probe: Result<Platform<C>, E>| probe->Ok_0);
    if probes.len() > 0 {
        let before = probes.drop_last();
        lemma_matching_is(options, before, wanted);
        assert(all.drop_last() =~= before.map_values(
            |probe: Result<Platform<C>, E>| probe->Ok_0,
        ));
        assert(wanted(all.last()) == options.spec_accepts(all.last().serial@));
    } else {
        assert(options.matching(probes) =~= all.filter(wanted));
    }
}

proof fn lemma_filter_all<T>(s: Seq<T>, f: spec_fn(T) -> bool)
    requires
        forall|item: T| #[trigger] f(item),
    ensures
        s.filter(f) == s,
    decreases s.len(),
{
    reveal(Seq::filter);
    if s.len() > 0 {
        lemma_filter_all(s.drop_last(), f);
        assert(f(s.last()));
        assert(s =~= s.drop_last().push(s.last()));
    } else {
        assert(s.filter(f) =~= s);
    }
}

/// Without a serial every platform is looked for, whatever serial it reports, and with one
/// exactly those that report the same bytes. A search in which no candidate fails opens
/// each of them with the timeout, and ends with the platform that is looked for if there
/// is just one, and else with the error that there is none, or with all that there are,
/// in order.
pub proof fn law_search_looks_for_the_wanted_serial<D, C, E>(
    options: ConnectionOptions,
    candidates: Seq<D>,
    probes: Seq<Result<Platform<C>, E>>,
)
    requires
        probes.len() == candidates.len(),
        forall|i: int| 0 <= i < probes.len() ==> probes[i] is Ok,
    ensures
        ({
            let r = options.driven(options.start::<D, C, E>(Ok(candidates)), probes);
            let opened = options.opened(options.start::<D, C, E>(Ok(candidates)), probes);
            let all = probes.map_values(|probe: Result<Platform<C>, E>| probe->Ok_0);
            let found = match options.serial {
                None => all,
                Some(wanted) => all.filter(
                    |platform: Platform<C>| platform.serial@ == wanted.0@,
                ),
            };
            &&& found.len() == 1 ==> r == Ok::<C, ConnectErrorView<C, E>>(found[0].connection)
            &&& found.len() == 0 ==> r == Err::<C, ConnectErrorView<C, E>>(
                ConnectErrorView::Select(SelectErrorView::NotFound),
            )
            &&& found.len() > 1 ==> r == Err::<C, ConnectErrorView<C, E>>(
                ConnectErrorView::Select(SelectErrorView::Ambiguous(found)),
            )
            &&& opened.len() == candidates.len()
            &&& forall|i: int|
                0 <= i < candidates.len() ==> #[trigger] opened[i] == (
                    candidates[i],
                    options.timeout,
                )
        }),
{
    law_search_selects_the_only_match::<D, C, E>(options, candidates, probes);
    let all = probes.map_values(|probe: Result<Platform<C>, E>| probe->Ok_0);
    match options.serial {
        None => {
            let any = |platform: Platform<C>| true;
            lemma_matching_is(options, probes, any);
            lemma_filter_all(all, any);
        },
        Some(wanted) => {
            lemma_matching_is(
                options,
                probes,
                |platform: Platform<C>| platform.serial@ == wanted.0@,
            );
        },
    }
}

/// Without a serial the number of platforms decides alone: a search connects to the only
/// one, and is refused with all of them if there are more.
pub proof fn law_search_without_serial_takes_any<D, C, E>(
    options: ConnectionOptions,
    candidates: Seq<D>,
    probes: Seq<Result<Platform<C>, E>>,
)
    requires
        options.serial is None,
        probes.len() == candidates.len(),
        forall|i: int| 0 <= i < probes.len() ==> probes[i] is Ok,
    ensures
        ({
            let r = options.driven(options.start::<D, C, E>(Ok(candidates)), probes);
            &&& r is Ok <==> probes.len() == 1
            &&& probes.len() == 1 ==> r->Ok_0 == probes[0]->Ok_0.connection
            &&& probes.len() == 0 ==> r == Err::<C, ConnectErrorView<C, E>>(
                ConnectErrorView::Select(SelectErrorView::NotFound),
            )
            &&& probes.len() > 1 ==> {
                &&& r matches Err(ConnectErrorView::Select(SelectErrorView::Ambiguous(matches)))
                &&& matches.len() == probes.len()
                &&& forall|i: int|
                    0 <= i < probes.len() ==> #[trigger] matches[i] == probes[i]->Ok_0
            }
        }),
{
    law_search_looks_for_the_wanted_serial::<D, C, E>(options, candidates, probes);
}

/// A search starts with the first candidate and goes on with the others, or ends at once if
/// there is none, or if they cannot be listed.
pub proof fn law_search_starts_with_the_first_candidate<D, C, E>(
    options: ConnectionOptions,
    listed: Result<Vec<D>, E>,
    step: ConnectStep<D, C, E>,
)
    requires
        call_ensures(ConnectionOptions::connect::<D, C, E>, (&options, listed), step),
    ensures
        match listed {
            Err(error) => step@ == ConnectStepView::<D, C, E>::Done(
                Err(ConnectErrorView::Device(error)),
            ),
            Ok(candidates) => if candidates@.len() == 0 {
                step@ == ConnectStepView::<D, C, E>::Done(
                    Err(ConnectErrorView::Select(SelectErrorView::NotFound)),
                )
            } else {
                &&& step@ matches ConnectStepView::Open { candidate, timeout, search }
                &&& candidate == candidates@[0]
                &&& timeout == options.timeout
                &&& search.pending == candidates@.skip(1)
                &&& search.matches.len() == 0
            },
        },
{
}

/// A search keeps a platform that was opened exactly if no serial is wanted or it reports
/// the wanted one, and keeps those that it had. It goes on with the next candidate, and
/// after the last it ends with what it kept. A failure ends it at once.
pub proof fn law_search_goes_on_with_the_next_candidate<D, C, E>(
    options: ConnectionOptions,
    search: Search<D, C>,
    probe: Result<Platform<C>, E>,
    step: ConnectStep<D, C, E>,
)
    requires
        call_ensures(ConnectionOptions::probed::<D, C, E>, (&options, search, probe), step),
    ensures
        match probe {
            Err(error) => step@ == ConnectStepView::<D, C, E>::Done(
                Err(ConnectErrorView::Device(error)),
            ),
            Ok(platform) => {
                let wanted = options.serial is None || options.serial->Some_0.0@ == platform.serial@;
                let kept = search.matches@ + if wanted {
                    seq![platform]
                } else {
                    seq![]
                };
                if search.pending@.len() > 0 {
                    step@ == (ConnectStepView::<D, C, E>::Open {
                        candidate: search.pending@[0],
                        timeout: options.timeout,
                        search: SearchView { pending: search.pending@.skip(1), matches: kept },
                    })
                } else if kept.len() == 1 {
                    step@ == ConnectStepView::<D, C, E>::Done(Ok(kept[0].connection))
                } else if kept.len() == 0 {
                    step@ == ConnectStepView::<D, C, E>::Done(
                        Err(ConnectErrorView::Select(SelectErrorView::NotFound)),
                    )
                } else {
                    step@ == ConnectStepView::<D, C, E>::Done(
                        Err(ConnectErrorView::Select(SelectErrorView::Ambiguous(kept))),
                    )
                }
            },
        },
{
    if let Ok(platform) = probe {
        assert(options.kept(search.matches@, platform) =~= search.matches@ + if options.serial
            is None || options.serial->Some_0.0@ == platform.serial@ {
            seq![platform]
        } else {
            seq![]
        });
    }
}

/// A report says whether there was no platform or more than one, and for which serial, if
/// one was wanted. Of several it names each, in order and after one line that says what
/// follows: by its serial, which is how to choose it, or, where that does not tell them
/// apart, by its connection.
pub proof fn law_report_names_each_platform<'a, C>(
    options: ConnectionOptions,
    error: SelectError<C>,
    report: Report<'a, C>,
)
    requires
        call_ensures(ConnectionOptions::explain::<C>, (&options, &error), report),
    ensures
        match error {
            SelectError::NotFound => {
                &&& report.lines@.len() == 0
                &&& report.message@ == match options.serial {
                    None => "no connected platforms"@,
                    Some(serial) => "no connected platforms with serial="@
                        + crate::hex::hex_text(serial.0@),
                }
            },
            SelectError::Ambiguous(matches) => {
                &&& report.lines@.len() == 1 + matches@.len()
                &&& match options.serial {
                    None => {
                        &&& report.message@ == "more than one connected platform"@
                        &&& report.lines@[0]@ == ReportLineView::<C>::Text(
                            "Choose one of the connected platforms using its serial:"@,
                        )
                        &&& forall|i: int|
                            0 <= i < matches@.len() ==> report.lines@[i + 1]@
                                == ReportLineView::<C>::Text(
                                "--serial="@ + crate::hex::hex_text(
                                    (#[trigger] matches@[i]).serial@,
                                ),
                            )
                    },
                    Some(serial) => {
                        &&& report.message@ == "more than one connected platform with serial="@
                            + crate::hex::hex_text(serial.0@)
                        &&& report.lines@[0]@ == ReportLineView::<C>::Text(
                            "Multiple connected platforms with serial="@ + crate::hex::hex_text(
                                serial.0@,
                            ) + ":"@,
                        )
                        &&& forall|i: int|
                            0 <= i < matches@.len() ==> report.lines@[i + 1]@
                                == (ReportLineView::<C>::Connection {
                                bullet: "- "@,
                                connection: (#[trigger] matches@[i]).connection,
                            })
                    },
                }
            },
        },
{
    let lines = options.lines(error@);
    let shown = report.lines@.map_values(|line: ReportLine<'a, C>| line@);
    assert(shown == lines);
    assert(forall|i: int| 0 <= i < lines.len() ==> report.lines@[i]@ == #[trigger] shown[i]);
    if let SelectError::Ambiguous(matches) = error {
        assert forall|i: int| 0 <= i < matches@.len() implies report.lines@[i + 1]@ == lines[i
            + 1] && (#[trigger] matches@[i]) == matches@[i] by {
            assert(report.lines@[i + 1]@ == shown[i + 1]);
        }
        assert(report.lines@[0]@ == shown[0]);
    }
}

/// Every reason can be told, unless a serial that would be shown is too long to be.
pub proof fn law_every_reason_can_be_told<C>(options: ConnectionOptions, error: SelectErrorView<C>)
    requires
        options.serial matches Some(serial) ==> serial.0@.len() <= usize::MAX / 512,
        options.serial is None && error is Ambiguous ==> forall|i: int|
            0 <= i < error->Ambiguous_0.len() ==> (
            #[trigger] error->Ambiguous_0[i]).serial@.len() <= usize::MAX / 512,
    ensures
        options.can_explain(error),
{
}

/// A copy of the options asks for the same.
pub proof fn law_copied_options_ask_for_the_same(
    options: ConnectionOptions,
    copy: ConnectionOptions,
    serial: Seq<u8>,
)
    requires
        call_ensures(ConnectionOptions::clone, (&options,), copy),
    ensures
        copy.timeout == options.timeout,
        copy.serial is Some <==> options.serial is Some,
        copy.serial is Some ==> copy.serial->Some_0.0@ == options.serial->Some_0.0@,
        copy.spec_accepts(serial) <==> options.spec_accepts(serial),
{
}

/// A listing first prints how many candidates there are, then starts with the first of them
/// and goes on with the others, or ends at once if there is none. It fails if they cannot
/// be listed.
pub proof fn law_listing_counts_the_candidates<D, I, E>(
    list: PlatformList,
    listed: Result<Vec<D>, E>,
    r: Result<(String, ListStep<D, I, E>), E>,
)
    requires
        call_ensures(PlatformList::run::<D, I, E>, (list, listed), r),
    ensures
        match listed {
            Err(error) => r is Err && r->Err_0 == error,
            Ok(candidates) => {
                &&& r is Ok
                &&& exists|digits: Seq<char>| #[trigger]
                    crate::text::is_decimal(digits, candidates@.len() as int) && r->Ok_0.0@
                        == "There are "@ + digits + " connected platforms:"@
                &&& candidates@.len() == 0 ==> r->Ok_0.1@ == ListStepView::<D, I, E>::Done(
                    Ok(Seq::empty()),
                )
                &&& candidates@.len() > 0 ==> r->Ok_0.1@ == (ListStepView::<D, I, E>::Open {
                    candidate: candidates@[0],
                    timeout: list.timeout,
                    listing: ListingView {
                        timeout: list.timeout,
                        pending: candidates@.skip(1),
                        platforms: Seq::empty(),
                    },
                })
            },
        },
{
    if let Ok(candidates) = listed {
        crate::text::law_digits_stand_for_the_number(candidates@.len());
    }
}

/// A listing keeps what each platform tells, whatever it is, and goes on with the next
/// candidate and the same timeout. After the last it ends with all that was told, in order.
/// A failure ends it at once.
pub proof fn law_listing_goes_on_with_the_next_candidate<D, I, E>(
    listing: Listing<D, I>,
    probe: Result<I, E>,
    step: ListStep<D, I, E>,
)
    requires
        call_ensures(Listing::<D, I>::probed::<E>, (listing, probe), step),
    ensures
        match probe {
            Err(error) => step@ == ListStepView::<D, I, E>::Done(Err(error)),
            Ok(platform) => {
                let told = listing.platforms@ + seq![platform];
                if listing.pending@.len() > 0 {
                    step@ == (ListStepView::<D, I, E>::Open {
                        candidate: listing.pending@[0],
                        timeout: listing.timeout,
                        listing: ListingView {
                            timeout: listing.timeout,
                            pending: listing.pending@.skip(1),
                            platforms: told,
                        },
                    })
                } else {
                    step@ == ListStepView::<D, I, E>::Done(Ok(told))
                }
            },
        },
{
    if let Ok(platform) = probe {
        assert(listing.platforms@.push(platform) =~= listing.platforms@ + seq![platform]);
    }
}

} // verus!
