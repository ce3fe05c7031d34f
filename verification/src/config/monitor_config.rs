//! The monitoring of the tool. No rule binds it.

use vstd::prelude::*;

verus! {

/// Where the tool offers its metrics and how often they are read.
#[derive(Debug, PartialEq)]
pub struct MetricsConfig {
    pub enabled: bool,
    pub endpoint: String,
    pub interval_seconds: u32,
}

/// The model of [`MetricsConfig`]: its texts as sequences of characters.
pub struct MetricsConfigView {
    pub enabled: bool,
    pub endpoint: Seq<char>,
    pub interval_seconds: u32,
}

impl DeepView for MetricsConfig {
    type V = MetricsConfigView;

    open spec fn deep_view(&self) -> MetricsConfigView {
        MetricsConfigView {
            enabled: self.enabled,
            endpoint: self.endpoint@,
            interval_seconds: self.interval_seconds,
        }
    }
}

impl Clone for MetricsConfig {
    fn clone(&self) -> (r: Self)
        ensures
            r.deep_view() == self.deep_view(),
    {
        MetricsConfig {
            enabled: self.enabled,
            endpoint: self.endpoint.clone(),
            interval_seconds: self.interval_seconds,
        }
    }
}

/// Where the tool answers whether it is well.
#[derive(Debug, PartialEq)]
pub struct HealthCheckConfig {
    pub enabled: bool,
    pub endpoint: String,
    pub port: u16,
}

/// The model of [`HealthCheckConfig`]: its texts as sequences of characters.
pub struct HealthCheckConfigView {
    pub enabled: bool,
    pub endpoint: Seq<char>,
    pub port: u16,
}

impl DeepView for HealthCheckConfig {
    type V = HealthCheckConfigView;

    open spec fn deep_view(&self) -> HealthCheckConfigView {
        HealthCheckConfigView { enabled: self.enabled, endpoint: self.endpoint@, port: self.port }
    }
}

impl Clone for HealthCheckConfig {
    fn clone(&self) -> (r: Self)
        ensures
            r.deep_view() == self.deep_view(),
    {
        HealthCheckConfig {
            enabled: self.enabled,
            endpoint: self.endpoint.clone(),
            port: self.port,
        }
    }
}

/// A way to tell people of a run's end.
#[derive(Debug, PartialEq)]
pub enum NotificationChannel {
    Webhook { url: String },
    Email { smtp_host: String, recipients: Vec<String> },
}

/// The model of [`NotificationChannel`]: its texts as sequences of characters.
pub enum NotificationChannelView {
    Webhook { url: Seq<char> },
    Email { smtp_host: Seq<char>, recipients: Seq<Seq<char>> },
}

impl DeepView for NotificationChannel {
    type V = NotificationChannelView;

    open spec fn deep_view(&self) -> NotificationChannelView {
        match *self {
            NotificationChannel::Webhook { url } => NotificationChannelView::Webhook { url: url@ },
            NotificationChannel::Email { smtp_host, recipients } => NotificationChannelView::Email {
                smtp_host: smtp_host@,
                recipients: recipients.deep_view(),
            },
        }
    }
}

impl Clone for NotificationChannel {
    fn clone(&self) -> (r: Self)
        ensures
            r.deep_view() == self.deep_view(),
    {
        match self {
            NotificationChannel::Webhook { url } => NotificationChannel::Webhook {
                url: url.clone(),
            },
            NotificationChannel::Email { smtp_host, recipients } => {
                let copies = recipients.clone();
                assert(copies.deep_view() =~= recipients.deep_view());
                NotificationChannel::Email { smtp_host: smtp_host.clone(), recipients: copies }
            },
        }
    }
}

/// Of which runs people are told, and how.
#[derive(Debug, PartialEq)]
pub struct NotificationSettings {
    pub on_failure: bool,
    pub on_success: bool,
    pub channels: Vec<NotificationChannel>,
}

/// The model of [`NotificationSettings`]: its texts as sequences of characters.
pub struct NotificationSettingsView {
    pub on_failure: bool,
    pub on_success: bool,
    pub channels: Seq<NotificationChannelView>,
}

impl DeepView for NotificationSettings {
    type V = NotificationSettingsView;

    open spec fn deep_view(&self) -> NotificationSettingsView {
        NotificationSettingsView {
            on_failure: self.on_failure,
            on_success: self.on_success,
            channels: self.channels.deep_view(),
        }
    }
}

impl Clone for NotificationSettings {
    fn clone(&self) -> (r: Self)
        ensures
            r.deep_view() == self.deep_view(),
    {
        let channels = self.channels.clone();
        assert(channels.deep_view() =~= self.channels.deep_view());
        NotificationSettings { on_failure: self.on_failure, on_success: self.on_success, channels }
    }
}

/// How the tool is watched while it runs.
#[derive(Debug, PartialEq)]
pub struct MonitoringConfig {
    pub enabled: bool,
    pub metrics: Option<MetricsConfig>,
    pub health_check: Option<HealthCheckConfig>,
    pub notifications: Option<NotificationSettings>,
}

/// The model of [`MonitoringConfig`]: its texts as sequences of characters.
pub struct MonitoringConfigView {
    pub enabled: bool,
    pub metrics: Option<MetricsConfigView>,
    pub health_check: Option<HealthCheckConfigView>,
    pub notifications: Option<NotificationSettingsView>,
}

impl DeepView for MonitoringConfig {
    type V = MonitoringConfigView;

    open spec fn deep_view(&self) -> MonitoringConfigView {
        MonitoringConfigView {
            enabled: self.enabled,
            metrics: self.metrics.deep_view(),
            health_check: self.health_check.deep_view(),
            notifications: self.notifications.deep_view(),
        }
    }
}

impl Clone for MonitoringConfig {
    fn clone(&self) -> (r: Self)
        ensures
            r.deep_view() == self.deep_view(),
    {
        MonitoringConfig {
            enabled: self.enabled,
            metrics: self.metrics.clone(),
            health_check: self.health_check.clone(),
            notifications: self.notifications.clone(),
        }
    }
}

} // verus!
