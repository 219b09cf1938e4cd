//! The four-stage resolve/fetch/decode/stream pipeline, as a state machine:
//! one inbound request walks it from `Start` to `Done`, and every decision —
//! which upstream call to issue next, or which failure ends the run — is a
//! function of the stage and of the upstream's answer alone. The transport
//! that carries the calls lives outside the library and feeds the machine one
//! event per answer.

use vstd::prelude::*;
use crate::api;
use crate::api::{GetUuid, Profile, Property, Skin, SuccessOrError};
use crate::decode::{blob_outcome, decode_blob};
use crate::error::Error;

verus! {

/// Where one resolved identifier comes from: the first entry of the
/// directory's answer, or `NoPlayer` where the answer is empty.
pub open spec fn lookup_outcome(uuids: Seq<GetUuid>) -> Result<Seq<char>, Error> {
    if uuids.len() == 0 {
        Result::Err(Error::NoPlayer)
    } else {
        Result::Ok(uuids[0].id@)
    }
}

/// Picks the resolved identifier out of a directory answer: the first
/// match's identifier, or `NoPlayer` on an empty answer.
pub fn resolve_identifier(uuids: Vec<GetUuid>) -> (r: Result<String, Error>)
    ensures
        r matches Ok(id) ==> lookup_outcome(uuids@) == Result::<Seq<char>, Error>::Ok(id@),
        r matches Err(e) ==> lookup_outcome(uuids@) == Result::<Seq<char>, Error>::Err(e),
{
    let mut uuids = uuids;
    if uuids.len() == 0 {
        Err(Error::NoPlayer)
    } else {
        let first = uuids.remove(0);
        Ok(first.id)
    }
}

/// The position of the first attribute named `"textures"` at or behind `i`,
/// or the sequence's length where none follows.
pub open spec fn textures_index_from(props: Seq<Property>, i: int) -> int
    decreases props.len() - i,
{
    if i < 0 || i >= props.len() {
        props.len() as int
    } else if props[i].name@ == "textures"@ {
        i
    } else {
        textures_index_from(props, i + 1)
    }
}

/// The position of the first attribute named `"textures"`, or the length
/// where there is none.
pub open spec fn textures_index(props: Seq<Property>) -> int {
    textures_index_from(props, 0)
}

/// Whether a profile carries a texture attribute at all.
pub open spec fn has_textures(props: Seq<Property>) -> bool {
    textures_index(props) < props.len()
}

/// The value of the first texture attribute.
pub open spec fn textures_value(props: Seq<Property>) -> Seq<char> {
    props[textures_index(props)].value@
}

/// Scans a profile's attributes for the first one named `"textures"`:
/// its value, or `NoSkin` where the profile has none.
pub fn find_textures_value<'a>(profile: &'a Profile) -> (r: Result<&'a String, Error>)
    ensures
        r matches Ok(v) ==> has_textures(profile.properties@)
            && v@ == textures_value(profile.properties@),
        r matches Err(e) ==> !has_textures(profile.properties@) && e == Error::NoSkin,
{
    let key: String = "textures".to_owned();
    let n = profile.properties.len();
    let mut i: usize = 0;
    while i < n
        invariant
            n == profile.properties@.len(),
            i <= n,
            key@ == "textures"@,
            textures_index(profile.properties@)
                == textures_index_from(profile.properties@, i as int),
        decreases n - i,
    {
        if profile.properties[i].name == key {
            return Ok(&profile.properties[i].value);
        }
        i = i + 1;
    }
    Err(Error::NoSkin)
}

/// What one profile answer leads to: the skin URL its texture blob names, or
/// the first failure met on the way — no texture attribute, bad base64, a
/// malformed blob, or a blob without a skin entry.
pub open spec fn profile_outcome(props: Seq<Property>) -> Result<Seq<char>, Error> {
    if !has_textures(props) {
        Result::Err(Error::NoSkin)
    } else {
        blob_outcome(textures_value(props))
    }
}

/// Works one profile answer through to the skin resource: finds the texture
/// attribute, decodes its blob, and yields the skin to fetch.
pub fn process_profile(profile: &Profile) -> (r: Result<Skin, Error>)
    ensures
        r matches Ok(skin) ==> profile_outcome(profile.properties@)
            == Result::<Seq<char>, Error>::Ok(skin.url@),
        r matches Err(e) ==> profile_outcome(profile.properties@)
            == Result::<Seq<char>, Error>::Err(e),
{
    let value = match find_textures_value(profile) {
        Ok(value) => value,
        Err(e) => {
            return Err(e);
        },
    };
    decode_blob(value)
}

/// The milestones of one run, in the order the happy path passes them.
/// `Failed` is reached from any earlier stage and is terminal, as is `Done`.
#[derive(Clone, Copy, PartialEq, Eq, Structural, Debug)]
pub enum Stage {
    /// Nothing issued yet; the run first passes the rate gate.
    Start,
    /// The pacing slot has passed; the lookup is out.
    RateGatePassed,
    /// The lookup answered with an identifier; the profile fetch is out.
    IdentifierResolved,
    /// The blob named a skin URL; the resource request is out.
    BlobDecoded,
    /// The resource stream is open and being piped to the caller.
    Streaming,
    /// The body has been piped to its end.
    Done,
    /// A stage failed; the run is over.
    Failed,
}

/// One upstream answer (or the rate gate's go-ahead), fed to the machine.
#[derive(Debug)]
pub enum Event {
    /// The run's pacing slot has passed.
    GatePassed,
    /// The directory lookup answered.
    Lookup(SuccessOrError<Vec<GetUuid>>),
    /// The profile fetch answered.
    Profile(SuccessOrError<Profile>),
    /// The resource request answered with an open byte stream.
    ResourceOpened,
    /// The transport failed: connection, timeout, or a malformed envelope.
    Transport,
}

/// What the machine asks its transport to do next.
#[derive(Clone, Debug, PartialEq, Eq)]
pub enum Action {
    /// Send the directory lookup for this one name.
    IssueLookup(String),
    /// Fetch the profile of this identifier.
    FetchProfile(String),
    /// Open the resource at this URL.
    OpenResource(String),
    /// Pipe the open byte stream to the caller, unmodified.
    Stream,
    /// Answer the caller with this failure.
    Fail(Error),
    /// Answer the caller with a transport failure.
    FailTransport,
}

/// One run of the pipeline: the name being resolved and the milestone
/// reached so far.
pub struct Pipeline {
    name: String,
    stage: Stage,
}

impl Pipeline {
    /// The milestone this run has reached.
    pub closed spec fn spec_stage(&self) -> Stage {
        self.stage
    }

    /// The name this run resolves.
    pub closed spec fn spec_name(&self) -> Seq<char> {
        self.name@
    }

    /// Whether the run is over: either the body was piped whole, or a stage
    /// failed. A finished run accepts no event and issues no further call.
    pub open spec fn is_finished(&self) -> bool {
        self.spec_stage() is Done || self.spec_stage() is Failed
    }

    /// Which event each stage is waiting for: the one answer to the call
    /// that stage has outstanding, or a transport failure at any point.
    pub open spec fn accepts(&self, event: Event) -> bool {
        match event {
            Event::GatePassed => self.spec_stage() is Start,
            Event::Lookup(_) => self.spec_stage() is RateGatePassed,
            Event::Profile(_) => self.spec_stage() is IdentifierResolved,
            Event::ResourceOpened => self.spec_stage() is BlobDecoded,
            Event::Transport => !self.is_finished(),
        }
    }

    /// A fresh run for one name: nothing issued, nothing failed.
    pub fn new(name: String) -> (p: Self)
        ensures
            p.spec_stage() is Start,
            p.spec_name() == name@,
    {
        Pipeline { name, stage: Stage::Start }
    }

    /// The milestone reached, for the transport to observe.
    pub fn stage(&self) -> (s: Stage)
        ensures
            s == self.spec_stage(),
    {
        self.stage
    }

    /// Feeds the machine one event and takes its next decision. Every
    /// decision is spelled out per stage: which call follows a successful
    /// answer, and which failure ends the run otherwise. An upstream error
    /// envelope ends the run as a domain error; a transport failure ends it
    /// as such; every failure is terminal.
    pub fn on_event(&mut self, event: Event) -> (action: Action)
        requires
            old(self).accepts(event),
        ensures
            final(self).spec_name() == old(self).spec_name(),
            event is Transport ==> final(self).spec_stage() is Failed
                && action == Action::FailTransport,
            event matches Event::GatePassed ==> final(self).spec_stage() is RateGatePassed
                && (action matches Action::IssueLookup(n) && n@ == old(self).spec_name()),
            event matches Event::Lookup(env) ==> match env {
                SuccessOrError::Success(uuids) => match lookup_outcome(uuids@) {
                    Result::Ok(id) => final(self).spec_stage() is IdentifierResolved
                        && (action matches Action::FetchProfile(s) && s@ == id),
                    Result::Err(e) => final(self).spec_stage() is Failed
                        && action == Action::Fail(e),
                },
                SuccessOrError::Error(err) => final(self).spec_stage() is Failed
                    && action == Action::Fail(Error::Api(api::Error::Api(err))),
            },
            event matches Event::Profile(env) ==> match env {
                SuccessOrError::Success(profile) => match profile_outcome(profile.properties@) {
                    Result::Ok(url) => final(self).spec_stage() is BlobDecoded
                        && (action matches Action::OpenResource(u) && u@ == url),
                    Result::Err(e) => final(self).spec_stage() is Failed
                        && action == Action::Fail(e),
                },
                SuccessOrError::Error(err) => final(self).spec_stage() is Failed
                    && action == Action::Fail(Error::Api(api::Error::Api(err))),
            },
            event matches Event::ResourceOpened ==> final(self).spec_stage() is Streaming
                && action == Action::Stream,
    {
        match event {
            Event::GatePassed => {
                self.stage = Stage::RateGatePassed;
                Action::IssueLookup(self.name.clone())
            },
            Event::Lookup(env) => match env.into_success() {
                Ok(uuids) => match resolve_identifier(uuids) {
                    Ok(id) => {
                        self.stage = Stage::IdentifierResolved;
                        Action::FetchProfile(id)
                    },
                    Err(e) => {
                        self.stage = Stage::Failed;
                        Action::Fail(e)
                    },
                },
                Err(api_err) => {
                    self.stage = Stage::Failed;
                    Action::Fail(Error::Api(api_err))
                },
            },
            Event::Profile(env) => match env.into_success() {
                Ok(profile) => match process_profile(&profile) {
                    Ok(skin) => {
                        self.stage = Stage::BlobDecoded;
                        Action::OpenResource(skin.url)
                    },
                    Err(e) => {
                        self.stage = Stage::Failed;
                        Action::Fail(e)
                    },
                },
                Err(api_err) => {
                    self.stage = Stage::Failed;
                    Action::Fail(Error::Api(api_err))
                },
            },
            Event::ResourceOpened => {
                self.stage = Stage::Streaming;
                Action::Stream
            },
            Event::Transport => {
                self.stage = Stage::Failed;
                Action::FailTransport
            },
        }
    }

    /// Marks the run done once the body has been piped to its end.
    pub fn finish(&mut self)
        requires
            old(self).spec_stage() is Streaming,
        ensures
            final(self).spec_stage() is Done,
            final(self).spec_name() == old(self).spec_name(),
    {
        self.stage = Stage::Done;
    }
}

/// What one whole run against a snapshot of the upstream comes to. The
/// snapshot gives the three answers an unchanged upstream would serve: the
/// lookup's matches for the name, the profile of the resolved identifier,
/// and the bytes behind the blob's skin URL. The streamed output is those
/// bytes verbatim, or the first failure on the way to them.
pub open spec fn pipeline_outcome(
    uuids: Seq<GetUuid>,
    props: Seq<Property>,
    body: Seq<u8>,
) -> Result<Seq<u8>, Error> {
    match lookup_outcome(uuids) {
        Result::Err(e) => Result::Err(e),
        Result::Ok(_) => match profile_outcome(props) {
            Result::Err(e) => Result::Err(e),
            Result::Ok(_) => Result::Ok(body),
        },
    }
}

/// Law: a finished run — one that failed, or piped its body whole — accepts
/// no event at all, so no decision and no upstream call can follow a failure.
pub proof fn lemma_finished_accepts_no_event(p: Pipeline, event: Event)
    requires
        p.is_finished(),
    ensures
        !p.accepts(event),
{
}

/// Law: a run's decisions are a function of the upstream's answers alone, so
/// resolving the same name twice against an unchanged upstream streams
/// byte-identical output — or ends in the very same failure — both times.
pub proof fn lemma_pipeline_idempotent(
    uuids1: Seq<GetUuid>,
    props1: Seq<Property>,
    body1: Seq<u8>,
    uuids2: Seq<GetUuid>,
    props2: Seq<Property>,
    body2: Seq<u8>,
)
    requires
        uuids1 == uuids2,
        props1 == props2,
        body1 == body2,
    ensures
        pipeline_outcome(uuids1, props1, body1) == pipeline_outcome(uuids2, props2, body2),
{
}

/// Law: an empty lookup answer ends the run as `NoPlayer`, whatever the
/// profile or resource stages would have answered — neither is consulted.
pub proof fn lemma_empty_lookup_fails_noplayer(
    uuids: Seq<GetUuid>,
    props: Seq<Property>,
    body: Seq<u8>,
)
    requires
        uuids.len() == 0,
    ensures
        pipeline_outcome(uuids, props, body) == Result::<Seq<u8>, Error>::Err(Error::NoPlayer),
{
}

/// Law: a profile without a texture attribute ends the run as `NoSkin`
/// before any decoding: the outcome holds whatever the decoders would say,
/// so neither the base64 nor the blob decoder is consulted.
pub proof fn lemma_no_textures_fails_noskin(props: Seq<Property>)
    requires
        !has_textures(props),
    ensures
        profile_outcome(props) == Result::<Seq<char>, Error>::Err(Error::NoSkin),
{
}

/// Law: where the texture attribute's value does not base64-decode, the run
/// ends as the decode failure `Base64`; no skin URL is ever produced, so the
/// resource stage is never reached.
pub proof fn lemma_bad_base64_fails(props: Seq<Property>)
    requires
        has_textures(props),
        crate::decode::base64_decoded(textures_value(props)) is None,
    ensures
        profile_outcome(props) == Result::<Seq<char>, Error>::Err(Error::Base64),
{
}

} // verus!

