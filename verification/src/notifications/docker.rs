//! Announcements of Docker images, by channel.

use crate::config::Config;
use crate::dispatcher::{broadcast, channel_views, channels_of, dispatch, enabled_channels};
use crate::models::DockerReleaseInfo;
use crate::notifications::{discord, gotify, ntfy, slack};
use crate::release::{ReleaseDescriptor, ReleaseDescriptorView};
use crate::wire::{delivery_views, Delivery};
use vstd::prelude::*;

verus! {

/// The releases of a list, each as a descriptor, in order.
pub open spec fn descriptors(releases: Seq<DockerReleaseInfo>) -> Seq<ReleaseDescriptorView> {
    Seq::new(releases.len(), |i: int| ReleaseDescriptorView::Docker(releases[i]@))
}

/// Prepares the announcement of `release` for an ntfy server.
pub fn send_to_ntfy(release: DockerReleaseInfo, auth: &str, ntfy_url: &str) -> (d: Delivery)
    ensures
        d@ == ntfy::docker_delivery(release@, auth@, ntfy_url@),
{
    ntfy::send_docker_notification(&release, auth, ntfy_url)
}

/// Prepares the announcement of `release` for a Gotify server.
pub fn send_to_gotify(release: DockerReleaseInfo, token: &str, gotify_url: &str) -> (d: Delivery)
    ensures
        d@ == gotify::docker_delivery(release@, token@, gotify_url@),
{
    gotify::send_docker_notification(&release, token, gotify_url)
}

/// Prepares the announcement of `release` for a Discord webhook.
pub fn send_to_discord(release: DockerReleaseInfo, webhook_url: &str) -> (d: Delivery)
    ensures
        d@ == discord::docker_delivery(release@, webhook_url@),
{
    discord::send_docker_notification(&release, webhook_url)
}

/// Prepares the announcement of `release` for a Slack webhook.
pub fn send_to_slack(release: DockerReleaseInfo, webhook_url: &str) -> (d: Delivery)
    ensures
        d@ == slack::docker_delivery(release@, webhook_url@),
{
    slack::send_docker_notification(&release, webhook_url)
}

/// Prepares the announcement of every one of `releases` on every channel
/// that `config` enables, release by release.
pub fn send_notifications(releases: &[DockerReleaseInfo], config: &Config) -> (deliveries: Vec<
    Delivery,
>)
    ensures
        delivery_views(deliveries@) == broadcast(descriptors(releases@), channels_of(config@)),
{
    let channels = enabled_channels(config);
    let mut deliveries: Vec<Delivery> = Vec::new();
    let mut at: usize = 0;
    while at < releases.len()
        invariant
            at <= releases.len(),
            channel_views(channels@) == channels_of(config@),
            delivery_views(deliveries@) == broadcast(
                descriptors(releases@).take(at as int),
                channels_of(config@),
            ),
        decreases releases.len() - at,
    {
        let release = ReleaseDescriptor::Docker(releases[at].clone());
        let mut fresh = dispatch(&channels, &release);
        assert(descriptors(releases@).take(at + 1).drop_last() == descriptors(releases@).take(
            at as int,
        ));
        deliveries.append(&mut fresh);
        at += 1;
    }
    assert(descriptors(releases@).take(releases.len() as int) == descriptors(releases@));
    deliveries
}

} // verus!
