//! The fan-out dispatcher: one announcement per enabled channel for every
//! new release, and one outcome per announcement, each judged on its own.

use crate::config::{Config, ConfigView};
use crate::database::{StoreError, VersionStore, Versions};
use crate::detector::{classification, commit, observe, observed, recorded, Classification};
use crate::notifications::{discord, gotify, ntfy, slack};
use crate::release::{ReleaseDescriptor, ReleaseDescriptorView};
use crate::wire::{delivery_views, is_success_status, status_is_success, Delivery, DeliveryView};
use vstd::prelude::*;
use vstd::string::*;

verus! {

/// A notification service together with what is needed to reach it.
#[derive(Debug)]
pub enum Channel {
    Ntfy { url: String, auth: String },
    Gotify { url: String, token: String },
    Discord { webhook_url: String },
    Slack { webhook_url: String },
}

/// The mathematical view of [`Channel`].
pub ghost enum ChannelView {
    Ntfy { url: Seq<char>, auth: Seq<char> },
    Gotify { url: Seq<char>, token: Seq<char> },
    Discord { webhook_url: Seq<char> },
    Slack { webhook_url: Seq<char> },
}

impl View for Channel {
    type V = ChannelView;

    open spec fn view(&self) -> ChannelView {
        match self {
            Channel::Ntfy { url, auth } => ChannelView::Ntfy { url: url@, auth: auth@ },
            Channel::Gotify { url, token } => ChannelView::Gotify { url: url@, token: token@ },
            Channel::Discord { webhook_url } => ChannelView::Discord { webhook_url: webhook_url@ },
            Channel::Slack { webhook_url } => ChannelView::Slack { webhook_url: webhook_url@ },
        }
    }
}

/// The views of a list of channels, in order.
pub open spec fn channel_views(channels: Seq<Channel>) -> Seq<ChannelView> {
    Seq::new(channels.len(), |i: int| channels[i]@)
}

/// The ntfy channel, enabled by its URL.
pub open spec fn ntfy_channel(config: ConfigView) -> Seq<ChannelView> {
    match config.ntfy_url {
        Some(url) => seq![ChannelView::Ntfy { url, auth: config.auth }],
        None => Seq::empty(),
    }
}

/// The Gotify channel, enabled by its URL together with its token.
pub open spec fn gotify_channel(config: ConfigView) -> Seq<ChannelView> {
    match (config.gotify_url, config.gotify_token) {
        (Some(url), Some(token)) => seq![ChannelView::Gotify { url, token }],
        _ => Seq::empty(),
    }
}

/// The Discord channel, enabled by its webhook URL.
pub open spec fn discord_channel(config: ConfigView) -> Seq<ChannelView> {
    match config.discord_webhook_url {
        Some(webhook_url) => seq![ChannelView::Discord { webhook_url }],
        None => Seq::empty(),
    }
}

/// The Slack channel, enabled by its webhook URL.
pub open spec fn slack_channel(config: ConfigView) -> Seq<ChannelView> {
    match config.slack_webhook_url {
        Some(webhook_url) => seq![ChannelView::Slack { webhook_url }],
        None => Seq::empty(),
    }
}

/// The channels that a configuration enables, in the order in which they
/// are served: ntfy, Gotify, Discord, Slack. A channel whose settings are
/// missing is left out.
pub open spec fn channels_of(config: ConfigView) -> Seq<ChannelView> {
    ntfy_channel(config) + gotify_channel(config) + discord_channel(config) + slack_channel(config)
}

/// The announcement of `release` for `channel`.
pub open spec fn rendered(channel: ChannelView, release: ReleaseDescriptorView) -> DeliveryView {
    match (channel, release) {
        (ChannelView::Ntfy { url, auth }, ReleaseDescriptorView::GitHub(info)) => ntfy::github_delivery(
            info,
            auth,
            url,
        ),
        (ChannelView::Ntfy { url, auth }, ReleaseDescriptorView::Docker(info)) => ntfy::docker_delivery(
            info,
            auth,
            url,
        ),
        (
            ChannelView::Gotify { url, token },
            ReleaseDescriptorView::GitHub(info),
        ) => gotify::github_delivery(info, token, url),
        (
            ChannelView::Gotify { url, token },
            ReleaseDescriptorView::Docker(info),
        ) => gotify::docker_delivery(info, token, url),
        (
            ChannelView::Discord { webhook_url },
            ReleaseDescriptorView::GitHub(info),
        ) => discord::github_delivery(info, webhook_url),
        (
            ChannelView::Discord { webhook_url },
            ReleaseDescriptorView::Docker(info),
        ) => discord::docker_delivery(info, webhook_url),
        (ChannelView::Slack { webhook_url }, ReleaseDescriptorView::GitHub(info)) => slack::github_delivery(
            info,
            webhook_url,
        ),
        (ChannelView::Slack { webhook_url }, ReleaseDescriptorView::Docker(info)) => slack::docker_delivery(
            info,
            webhook_url,
        ),
    }
}

/// The announcements of `release`: one for each channel, in the order of
/// the channels.
pub open spec fn dispatched(channels: Seq<ChannelView>, release: ReleaseDescriptorView) -> Seq<
    DeliveryView,
> {
    Seq::new(channels.len(), |i: int| rendered(channels[i], release))
}

/// Lists the channels that `config` enables.
pub fn enabled_channels(config: &Config) -> (channels: Vec<Channel>)
    ensures
        channel_views(channels@) == channels_of(config@),
{
    let mut channels: Vec<Channel> = Vec::new();
    if let Some(url) = &config.ntfy_url {
        channels.push(Channel::Ntfy { url: url.clone(), auth: config.auth.clone() });
    }
    if let (Some(url), Some(token)) = (&config.gotify_url, &config.gotify_token) {
        channels.push(Channel::Gotify { url: url.clone(), token: token.clone() });
    }
    if let Some(webhook_url) = &config.discord_webhook_url {
        channels.push(Channel::Discord { webhook_url: webhook_url.clone() });
    }
    if let Some(webhook_url) = &config.slack_webhook_url {
        channels.push(Channel::Slack { webhook_url: webhook_url.clone() });
    }
    channels
}

/// Renders the announcement of `release` for `channel`.
pub fn render(channel: &Channel, release: &ReleaseDescriptor) -> (delivery: Delivery)
    ensures
        delivery@ == rendered(channel@, release@),
{
    match channel {
        Channel::Ntfy { url, auth } => match release {
            ReleaseDescriptor::GitHub(info) => ntfy::send_github_notification(
                info,
                auth.as_str(),
                url.as_str(),
            ),
            ReleaseDescriptor::Docker(info) => ntfy::send_docker_notification(
                info,
                auth.as_str(),
                url.as_str(),
            ),
        },
        Channel::Gotify { url, token } => match release {
            ReleaseDescriptor::GitHub(info) => gotify::send_github_notification(
                info,
                token.as_str(),
                url.as_str(),
            ),
            ReleaseDescriptor::Docker(info) => gotify::send_docker_notification(
                info,
                token.as_str(),
                url.as_str(),
            ),
        },
        Channel::Discord { webhook_url } => match release {
            ReleaseDescriptor::GitHub(info) => discord::send_github_notification(
                info,
                webhook_url.as_str(),
            ),
            ReleaseDescriptor::Docker(info) => discord::send_docker_notification(
                info,
                webhook_url.as_str(),
            ),
        },
        Channel::Slack { webhook_url } => match release {
            ReleaseDescriptor::GitHub(info) => slack::send_github_notification(
                info,
                webhook_url.as_str(),
            ),
            ReleaseDescriptor::Docker(info) => slack::send_docker_notification(
                info,
                webhook_url.as_str(),
            ),
        },
    }
}

/// Renders the announcement of `release` for every channel. Nothing is sent
/// where there is no channel.
pub fn dispatch(channels: &Vec<Channel>, release: &ReleaseDescriptor) -> (deliveries: Vec<Delivery>)
    ensures
        delivery_views(deliveries@) == dispatched(channel_views(channels@), release@),
{
    let mut deliveries: Vec<Delivery> = Vec::new();
    let mut at: usize = 0;
    while at < channels.len()
        invariant
            at <= channels.len(),
            deliveries.len() == at,
            forall|i: int| 0 <= i < at ==> deliveries[i]@ == rendered(channels[i]@, release@),
        decreases channels.len() - at,
    {
        deliveries.push(render(&channels[at], release));
        at += 1;
    }
    deliveries
}

/// Finishes the detection of a new release once its durable write was
/// tried. After a successful write the release is recorded in `store` and
/// announced on every channel. After a failed write nothing is recorded and
/// nothing is announced: the error is all that comes back.
pub fn announce(
    store: &mut VersionStore,
    channels: &Vec<Channel>,
    release: &ReleaseDescriptor,
    written: Result<(), StoreError>,
) -> (outcome: Result<Vec<Delivery>, StoreError>)
    ensures
        match written {
            Ok(_) => {
                &&& outcome matches Ok(deliveries)
                &&& delivery_views(deliveries@) == dispatched(channel_views(channels@), release@)
                &&& final(store)@ == recorded(old(store)@, release@)
            },
            Err(error) => outcome == Err::<Vec<Delivery>, StoreError>(error) && final(store)@ == old(
                store,
            )@,
        },
{
    match commit(store, release, written) {
        Ok(_) => Ok(dispatch(channels, release)),
        Err(error) => Err(error),
    }
}

/// What came back from one attempt to deliver an announcement.
#[derive(Debug)]
pub enum Attempt {
    /// The service answered with this HTTP status code.
    Answered(u16),
    /// No answer came; the text says why.
    Failed(String),
}

/// Why an announcement was not delivered.
#[derive(Debug)]
pub enum FailureReason {
    /// The service answered with a status code outside the 2xx class.
    Status(u16),
    /// The request did not get through.
    Transport(String),
}

/// How the delivery of one announcement ended.
#[derive(Debug)]
pub enum DeliveryOutcome {
    Delivered,
    Failed(FailureReason),
}

/// The mathematical view of [`Attempt`].
pub ghost enum AttemptView {
    Answered(u16),
    Failed(Seq<char>),
}

/// The mathematical view of [`FailureReason`].
pub ghost enum FailureReasonView {
    Status(u16),
    Transport(Seq<char>),
}

/// The mathematical view of [`DeliveryOutcome`].
pub ghost enum DeliveryOutcomeView {
    Delivered,
    Failed(FailureReasonView),
}

impl View for Attempt {
    type V = AttemptView;

    open spec fn view(&self) -> AttemptView {
        match self {
            Attempt::Answered(code) => AttemptView::Answered(*code),
            Attempt::Failed(error) => AttemptView::Failed(error@),
        }
    }
}

impl View for FailureReason {
    type V = FailureReasonView;

    open spec fn view(&self) -> FailureReasonView {
        match self {
            FailureReason::Status(code) => FailureReasonView::Status(*code),
            FailureReason::Transport(error) => FailureReasonView::Transport(error@),
        }
    }
}

impl View for DeliveryOutcome {
    type V = DeliveryOutcomeView;

    open spec fn view(&self) -> DeliveryOutcomeView {
        match self {
            DeliveryOutcome::Delivered => DeliveryOutcomeView::Delivered,
            DeliveryOutcome::Failed(reason) => DeliveryOutcomeView::Failed(reason@),
        }
    }
}

/// An announcement is delivered where the service answered with a status
/// code of the 2xx class. Any other answer, and no answer, is a failure.
pub open spec fn outcome_of(attempt: AttemptView) -> DeliveryOutcomeView {
    match attempt {
        AttemptView::Answered(code) => if status_is_success(code) {
            DeliveryOutcomeView::Delivered
        } else {
            DeliveryOutcomeView::Failed(FailureReasonView::Status(code))
        },
        AttemptView::Failed(error) => DeliveryOutcomeView::Failed(
            FailureReasonView::Transport(error),
        ),
    }
}

/// The outcomes of a round of attempts: one for each attempt, in order, each
/// judged by its own attempt alone.
pub open spec fn outcomes_of(attempts: Seq<Attempt>) -> Seq<DeliveryOutcomeView> {
    Seq::new(attempts.len(), |i: int| outcome_of(attempts[i]@))
}

/// The views of a list of outcomes, in order.
pub open spec fn outcome_views(outcomes: Seq<DeliveryOutcome>) -> Seq<DeliveryOutcomeView> {
    Seq::new(outcomes.len(), |i: int| outcomes[i]@)
}

/// Judges one attempt.
pub fn outcome(attempt: &Attempt) -> (result: DeliveryOutcome)
    ensures
        result@ == outcome_of(attempt@),
{
    match attempt {
        Attempt::Answered(code) => {
            if is_success_status(*code) {
                DeliveryOutcome::Delivered
            } else {
                DeliveryOutcome::Failed(FailureReason::Status(*code))
            }
        },
        Attempt::Failed(error) => DeliveryOutcome::Failed(FailureReason::Transport(error.clone())),
    }
}

/// Judges every attempt of a round once all of them have settled. A failed
/// attempt is reported as such and changes nothing for the others.
pub fn settle(attempts: &Vec<Attempt>) -> (outcomes: Vec<DeliveryOutcome>)
    ensures
        outcome_views(outcomes@) == outcomes_of(attempts@),
{
    let mut outcomes: Vec<DeliveryOutcome> = Vec::new();
    let mut at: usize = 0;
    while at < attempts.len()
        invariant
            at <= attempts.len(),
            outcomes.len() == at,
            forall|i: int| 0 <= i < at ==> outcomes[i]@ == outcome_of(attempts[i]@),
        decreases attempts.len() - at,
    {
        outcomes.push(outcome(&attempts[at]));
        at += 1;
    }
    outcomes
}

/// The views of a list of releases, in order.
pub open spec fn release_views(releases: Seq<ReleaseDescriptor>) -> Seq<ReleaseDescriptorView> {
    Seq::new(releases.len(), |i: int| releases[i]@)
}

/// The store after the detector has seen `releases` one after the other.
pub open spec fn stored_after(versions: Versions, releases: Seq<ReleaseDescriptorView>) -> Versions
    decreases releases.len(),
{
    if releases.len() == 0 {
        versions
    } else {
        observed(stored_after(versions, releases.drop_last()), releases.last())
    }
}

/// The announcements made while the detector sees `releases` one after the
/// other: those of every release that is new when its turn comes, in order.
pub open spec fn announcements(
    versions: Versions,
    releases: Seq<ReleaseDescriptorView>,
    channels: Seq<ChannelView>,
) -> Seq<DeliveryView>
    decreases releases.len(),
{
    if releases.len() == 0 {
        Seq::empty()
    } else {
        let earlier = releases.drop_last();
        let release = releases.last();
        if classification(stored_after(versions, earlier), release) == Classification::New {
            announcements(versions, earlier, channels) + dispatched(channels, release)
        } else {
            announcements(versions, earlier, channels)
        }
    }
}

/// The announcements of every one of `releases`, new or not, in order.
pub open spec fn broadcast(releases: Seq<ReleaseDescriptorView>, channels: Seq<ChannelView>) -> Seq<
    DeliveryView,
>
    decreases releases.len(),
{
    if releases.len() == 0 {
        Seq::empty()
    } else {
        broadcast(releases.drop_last(), channels) + dispatched(channels, releases.last())
    }
}

/// Runs the detector over `releases`, one after the other, against a store
/// held in memory: every release that is new when its turn comes is recorded
/// and then announced on every channel.
pub fn announce_all(
    store: &mut VersionStore,
    channels: &Vec<Channel>,
    releases: &Vec<ReleaseDescriptor>,
) -> (deliveries: Vec<Delivery>)
    ensures
        final(store)@ == stored_after(old(store)@, release_views(releases@)),
        delivery_views(deliveries@) == announcements(
            old(store)@,
            release_views(releases@),
            channel_views(channels@),
        ),
{
    let mut deliveries: Vec<Delivery> = Vec::new();
    let mut at: usize = 0;
    while at < releases.len()
        invariant
            at <= releases.len(),
            store@ == stored_after(old(store)@, release_views(releases@).take(at as int)),
            delivery_views(deliveries@) == announcements(
                old(store)@,
                release_views(releases@).take(at as int),
                channel_views(channels@),
            ),
        decreases releases.len() - at,
    {
        assert(release_views(releases@).take(at + 1).drop_last() == release_views(releases@).take(
            at as int,
        ));
        if observe(store, &releases[at]) == Classification::New {
            let mut fresh = dispatch(channels, &releases[at]);
            deliveries.append(&mut fresh);
        }
        at += 1;
    }
    assert(release_views(releases@).take(releases.len() as int) == release_views(releases@));
    deliveries
}

/// Whatever becomes of one attempt, the outcome of every other attempt of
/// the round stays what it was, and there are as many outcomes as attempts.
pub proof fn lemma_outcomes_isolated(attempts: Seq<Attempt>, failing: int, other: Attempt)
    requires
        0 <= failing < attempts.len(),
    ensures
        outcomes_of(attempts).len() == attempts.len(),
        outcomes_of(attempts.update(failing, other)).len() == attempts.len(),
        forall|i: int|
            0 <= i < attempts.len() && i != failing ==> outcomes_of(
                attempts.update(failing, other),
            )[i] == outcomes_of(attempts)[i],
        forall|i: int|
            0 <= i < attempts.len() ==> (outcomes_of(attempts)[i] is Delivered <==> (
            attempts[i]@ matches AttemptView::Answered(code) && status_is_success(code))),
{
}

/// Every channel gets its own announcement of a release, and what one
/// channel gets does not depend on which other channels there are.
pub proof fn lemma_dispatch_per_channel(
    channels: Seq<ChannelView>,
    others: Seq<ChannelView>,
    release: ReleaseDescriptorView,
    at: int,
)
    requires
        0 <= at < channels.len(),
        0 <= at < others.len(),
        channels[at] == others[at],
    ensures
        dispatched(channels, release).len() == channels.len(),
        dispatched(channels, release)[at] == rendered(channels[at], release),
        dispatched(channels, release)[at] == dispatched(others, release)[at],
{
}

/// Without any channel nothing is announced, though the store is kept up
/// to date all the same.
pub proof fn lemma_no_channel_no_announcement(
    versions: Versions,
    releases: Seq<ReleaseDescriptorView>,
)
    ensures
        announcements(versions, releases, Seq::empty()) == Seq::<DeliveryView>::empty(),
    decreases releases.len(),
{
    if releases.len() > 0 {
        lemma_no_channel_no_announcement(versions, releases.drop_last());
    }
}

/// Whether no entity has more than one release among `releases`.
pub open spec fn one_release_each(releases: Seq<ReleaseDescriptorView>) -> bool {
    forall|i: int, j: int|
        0 <= i < j < releases.len() ==> (#[trigger] releases[i]).entity() != (
        #[trigger] releases[j]).entity()
}

/// A cycle leaves the record of an entity alone of which it saw no release.
pub proof fn lemma_cycle_leaves_others(
    versions: Versions,
    releases: Seq<ReleaseDescriptorView>,
    entity: Seq<char>,
)
    requires
        forall|i: int| 0 <= i < releases.len() ==> (#[trigger] releases[i]).entity() != entity,
    ensures
        stored_after(versions, releases).contains_key(entity) == versions.contains_key(entity),
        versions.contains_key(entity) ==> stored_after(versions, releases)[entity]
            == versions[entity],
    decreases releases.len(),
{
    if releases.len() > 0 {
        let earlier = releases.drop_last();
        assert forall|i: int| 0 <= i < earlier.len() implies (#[trigger] earlier[i]).entity()
            != entity by {
            assert(earlier[i] == releases[i]);
        }
        lemma_cycle_leaves_others(versions, earlier, entity);
        assert(releases.last() == releases[releases.len() - 1]);
    }
}

/// After a cycle the store holds, for every entity that the cycle saw, the
/// marker of the last release that it saw of that entity.
pub proof fn lemma_cycle_records_last(
    versions: Versions,
    releases: Seq<ReleaseDescriptorView>,
    at: int,
)
    requires
        0 <= at < releases.len(),
        forall|j: int|
            at < j < releases.len() ==> (#[trigger] releases[j]).entity() != releases[at].entity(),
    ensures
        stored_after(versions, releases).contains_key(releases[at].entity()),
        stored_after(versions, releases)[releases[at].entity()].version == releases[at].marker(),
    decreases releases.len(),
{
    let earlier = releases.drop_last();
    if at < releases.len() - 1 {
        assert(earlier[at] == releases[at]);
        assert forall|j: int| at < j < earlier.len() implies (#[trigger] earlier[j]).entity()
            != earlier[at].entity() by {
            assert(earlier[j] == releases[j]);
        }
        lemma_cycle_records_last(versions, earlier, at);
        assert(releases.last() == releases[releases.len() - 1]);
    }
}

/// Every new release is announced exactly once: where no entity has more
/// than one release in a cycle, running the cycle again on the same
/// releases announces nothing and leaves the store as the first run left
/// it.
pub proof fn lemma_cycle_idempotent(
    versions: Versions,
    releases: Seq<ReleaseDescriptorView>,
    channels: Seq<ChannelView>,
)
    requires
        one_release_each(releases),
    ensures
        stored_after(stored_after(versions, releases), releases) == stored_after(
            versions,
            releases,
        ),
        announcements(stored_after(versions, releases), releases, channels) == Seq::<
            DeliveryView,
        >::empty(),
{
    lemma_second_run(stored_after(versions, releases), versions, releases, releases.len() as int, channels);
    assert(releases.take(releases.len() as int) == releases);
}

proof fn lemma_second_run(
    after: Versions,
    versions: Versions,
    releases: Seq<ReleaseDescriptorView>,
    seen: int,
    channels: Seq<ChannelView>,
)
    requires
        one_release_each(releases),
        after == stored_after(versions, releases),
        0 <= seen <= releases.len(),
    ensures
        stored_after(after, releases.take(seen)) == after,
        announcements(after, releases.take(seen), channels) == Seq::<DeliveryView>::empty(),
    decreases seen,
{
    if seen > 0 {
        lemma_second_run(after, versions, releases, seen - 1, channels);
        assert(releases.take(seen).drop_last() == releases.take(seen - 1));
        assert(releases.take(seen).last() == releases[seen - 1]);
        lemma_cycle_records_last(versions, releases, seen - 1);
    }
}

} // verus!
