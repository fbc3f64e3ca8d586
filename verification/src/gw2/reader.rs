//! The stateful reader of the Mumble link.
use vstd::prelude::*;
use crate::gw2::identity::{
    blank_identity, is_parsed, parse_identity, same_identity, IdentityDocument, IdentityParseError,
    IdentityView, MumbleIdentity,
};
use crate::gw2::telemetry::{
    blank_tracker, derived_from, DerivedTelemetry, MumbleData, TelemetryTracker, TrackerModel,
};
use crate::text::owned;

verus! {

/// Redaction-safe failure to obtain a coherent shared-memory snapshot.
#[derive(Clone, Copy, Debug, PartialEq, Eq, Structural)]
pub enum SnapshotError {
    /// The producer changed its tick during every bounded copy attempt.
    Unstable,
}

impl SnapshotError {
    /// Formats the failure for diagnostics.
    pub fn to_string(&self) -> (text: String)
        ensures
            text@ == "the MumbleLink producer did not yield a coherent snapshot"@,
    {
        owned("the MumbleLink producer did not yield a coherent snapshot")
    }
}

/// Source of owned Mumble snapshots.
pub trait MumbleSource {
    /// Copies one snapshot without returning a borrow into mutable shared memory.
    fn snapshot(&self) -> Result<MumbleData, SnapshotError>;
}

/// Result of comparing a parsed identity with the current owned value.
#[derive(Clone, Copy, Debug, PartialEq)]
pub enum IdentityUpdate {
    /// The Mumble identity buffer was empty.
    Absent,
    /// A valid identity matched the current value.
    Unchanged,
    /// A valid identity replaced the current value.
    Updated(MumbleIdentity),
}

/// One combined telemetry poll.
#[derive(Clone, Copy, Debug, PartialEq)]
pub struct MumblePoll {
    /// Owned raw Mumble snapshot.
    pub snapshot: MumbleData,
    /// Parsed identity result; failures never partially modify reader state.
    pub identity: Result<IdentityUpdate, IdentityParseError>,
    /// States derived from this snapshot and the render frame count.
    pub derived: DerivedTelemetry,
}

/// What becomes of the current identity when a snapshot is read: a failure
/// leaves it as it is, and a valid identity replaces it if it differs.
pub open spec fn identity_update(
    current: IdentityView,
    parsed: Result<MumbleIdentity, IdentityParseError>,
    after: IdentityView,
    update: Result<IdentityUpdate, IdentityParseError>,
) -> bool {
    match parsed {
        Err(error) => after == current && update == Err::<IdentityUpdate, IdentityParseError>(
            error,
        ),
        Ok(next) => if same_identity(next@, current) {
            after == current && update == Ok::<IdentityUpdate, IdentityParseError>(
                IdentityUpdate::Unchanged,
            )
        } else {
            after == next@ && update == Ok::<IdentityUpdate, IdentityParseError>(
                IdentityUpdate::Updated(next),
            )
        },
    }
}

/// Whether a snapshot carries no identity document.
pub open spec fn identity_absent(data: MumbleData) -> bool {
    data.identity[0] == 0
}

/// Stateful synchronous Mumble reader over an injected snapshot source.
#[derive(Clone, Debug)]
pub struct MumbleReader<S> {
    source: S,
    identity: MumbleIdentity,
    telemetry: TelemetryTracker,
}

impl<S> MumbleReader<S> {
    /// The current identity.
    pub closed spec fn current(self) -> IdentityView {
        self.identity@
    }

    /// What the telemetry remembers.
    pub closed spec fn tracker(self) -> TrackerModel {
        self.telemetry@
    }

    /// The snapshot source.
    pub closed spec fn snapshots(self) -> S {
        self.source
    }
}

impl<S: MumbleSource> MumbleReader<S> {
    /// Creates a reader with zeroed initial state.
    pub fn new(source: S) -> (reader: Self)
        ensures
            reader.current() == blank_identity(),
            blank_tracker(reader.tracker()),
            reader.snapshots() == source,
    {
        Self {
            source,
            identity: MumbleIdentity::default(),
            telemetry: TelemetryTracker::default(),
        }
    }

    /// Returns the latest completely validated identity.
    pub fn identity(&self) -> (identity: &MumbleIdentity)
        ensures
            identity@ == self.current(),
    {
        &self.identity
    }

    /// Returns the underlying source.
    pub fn source(&self) -> (source: &S)
        ensures
            *source == self.snapshots(),
    {
        &self.source
    }

    /// Takes what parsing the identity document of a snapshot resulted in.
    pub fn update_identity(&mut self, parsed: Result<MumbleIdentity, IdentityParseError>) -> (update:
        Result<IdentityUpdate, IdentityParseError>)
        ensures
            identity_update(old(self).current(), parsed, final(self).current(), update),
            final(self).tracker() == old(self).tracker(),
            final(self).snapshots() == old(self).snapshots(),
    {
        match parsed {
            Err(error) => Err(error),
            Ok(next) => {
                if next == self.identity {
                    Ok(IdentityUpdate::Unchanged)
                } else {
                    self.identity = next;
                    Ok(IdentityUpdate::Updated(next))
                }
            },
        }
    }

    /// Reads and processes a single coherent snapshot. `parse_document` reads
    /// the text of an identity document as identity JSON.
    pub fn poll<F: FnOnce(String) -> Option<IdentityDocument>>(
        &mut self,
        frame_count: u64,
        parse_document: F,
    ) -> (poll: Result<MumblePoll, SnapshotError>)
        requires
            forall|json: String| call_requires(parse_document, (json,)),
        ensures
            final(self).snapshots() == old(self).snapshots(),
            match poll {
                Err(error) => {
                    &&& call_ensures(
                        S::snapshot,
                        (&old(self).snapshots(),),
                        Err::<MumbleData, SnapshotError>(error),
                    )
                    &&& final(self).current() == old(self).current()
                    &&& final(self).tracker() == old(self).tracker()
                },
                Ok(poll) => {
                    let data = poll.snapshot;
                    &&& call_ensures(
                        S::snapshot,
                        (&old(self).snapshots(),),
                        Ok::<MumbleData, SnapshotError>(data),
                    )
                    &&& poll.derived == derived_from(old(self).tracker(), data, frame_count)
                    &&& final(self).tracker() == (TrackerModel {
                        tick: data.ui_tick,
                        avatar_position: data.avatar_position,
                        camera_front: data.camera_front,
                        frame_count,
                        derived: poll.derived,
                    })
                    &&& if identity_absent(data) {
                        &&& poll.identity == Ok::<IdentityUpdate, IdentityParseError>(
                            IdentityUpdate::Absent,
                        )
                        &&& final(self).current() == old(self).current()
                    } else {
                        exists|parsed: Result<MumbleIdentity, IdentityParseError>|
                            {
                                &&& #[trigger] is_parsed(data.identity@, parse_document, parsed)
                                &&& identity_update(
                                    old(self).current(),
                                    parsed,
                                    final(self).current(),
                                    poll.identity,
                                )
                            }
                    }
                },
            },
    {
        let snapshot = match self.source.snapshot() {
            Ok(snapshot) => snapshot,
            Err(error) => return Err(error),
        };
        let absent = snapshot.identity[0] == 0;
        let identity = if absent {
            Ok(IdentityUpdate::Absent)
        } else {
            let parsed = parse_identity(snapshot.identity.as_slice(), parse_document);
            proof {
                assert(is_parsed(snapshot.identity@, parse_document, parsed));
            }
            self.update_identity(parsed)
        };
        let derived = self.telemetry.advance(&snapshot, frame_count);
        Ok(MumblePoll { snapshot, identity, derived })
    }
}

/// A document that fails to parse never replaces the last good identity, and
/// neither does one that says the same again.
pub proof fn law_failures_keep_the_last_good_identity(
    current: IdentityView,
    parsed: Result<MumbleIdentity, IdentityParseError>,
    after: IdentityView,
    update: Result<IdentityUpdate, IdentityParseError>,
)
    requires
        identity_update(current, parsed, after, update),
    ensures
        update is Err <==> parsed is Err,
        update is Err ==> after == current,
        update == Ok::<IdentityUpdate, IdentityParseError>(IdentityUpdate::Unchanged) ==> after
            == current,
        update matches Ok(IdentityUpdate::Updated(next)) ==> after == next@,
{
}

/// A document that says the same again changes nothing, and one that says
/// anything else replaces the identity and hands it out.
pub proof fn law_only_new_identities_are_updates(
    current: IdentityView,
    parsed: Result<MumbleIdentity, IdentityParseError>,
    after: IdentityView,
    update: Result<IdentityUpdate, IdentityParseError>,
)
    requires
        identity_update(current, parsed, after, update),
    ensures
        parsed matches Err(error) ==> update == Err::<IdentityUpdate, IdentityParseError>(error),
        parsed is Ok && same_identity(parsed->Ok_0@, current) ==> update == Ok::<
            IdentityUpdate,
            IdentityParseError,
        >(IdentityUpdate::Unchanged),
        parsed is Ok && !same_identity(parsed->Ok_0@, current) ==> update == Ok::<
            IdentityUpdate,
            IdentityParseError,
        >(IdentityUpdate::Updated(parsed->Ok_0)) && after == parsed->Ok_0@,
        update != Ok::<IdentityUpdate, IdentityParseError>(IdentityUpdate::Absent),
{
}

/// An identity is absent exactly where its document has no first unit.
pub proof fn law_an_absent_identity_has_no_first_unit(data: MumbleData)
    ensures
        identity_absent(data) <==> data.identity@[0] == 0,
{
}

} // verus!
