use vstd::prelude::*;

verus! {

/// The application name used when sending notifications to the desktop environment.
pub const NOTIFICATION_APP_NAME: &'static str = "bluetooth-timeout";

/// A desktop notification, built field by field and handed to the notification sink.
#[derive(Debug, Clone)]
pub struct Notification {
    pub app_name: String,
    pub title: String,
    pub body: String,
    pub icon: String,
    /// Notification id to replace (0 = none).
    pub replaces_id: u32,
    /// Timeout in milliseconds; -1 asks for the server's default.
    pub timeout: i32,
}

impl Notification {
    /// A notification of this application with empty texts, replacing nothing and
    /// showing for the server's default time.
    pub fn new() -> (r: Self)
        ensures
            r.app_name@ == NOTIFICATION_APP_NAME@,
            r.title@ == Seq::<char>::empty(),
            r.body@ == Seq::<char>::empty(),
            r.icon@ == Seq::<char>::empty(),
            r.replaces_id == 0,
            r.timeout == -1,
    {
        Notification {
            app_name: NOTIFICATION_APP_NAME.to_string(),
            title: String::new(),
            body: String::new(),
            icon: String::new(),
            replaces_id: 0,
            timeout: -1,
        }
    }

    /// Overrides the application name shown with the notification.
    pub fn app_name(self, app_name: &str) -> (r: Self)
        ensures
            r.app_name@ == app_name@,
            r.title == self.title,
            r.body == self.body,
            r.icon == self.icon,
            r.replaces_id == self.replaces_id,
            r.timeout == self.timeout,
    {
        Notification { app_name: app_name.to_string(), ..self }
    }

    /// Sets the summary (title) of the notification.
    pub fn title(self, summary: &str) -> (r: Self)
        ensures
            r.app_name == self.app_name,
            r.title@ == summary@,
            r.body == self.body,
            r.icon == self.icon,
            r.replaces_id == self.replaces_id,
            r.timeout == self.timeout,
    {
        Notification { title: summary.to_string(), ..self }
    }

    /// Sets the body text of the notification.
    pub fn body(self, body: &str) -> (r: Self)
        ensures
            r.app_name == self.app_name,
            r.title == self.title,
            r.body@ == body@,
            r.icon == self.icon,
            r.replaces_id == self.replaces_id,
            r.timeout == self.timeout,
    {
        Notification { body: body.to_string(), ..self }
    }

    /// Sets the icon name from the icon theme, or "" for none.
    pub fn icon(self, icon: &str) -> (r: Self)
        ensures
            r.app_name == self.app_name,
            r.title == self.title,
            r.body == self.body,
            r.icon@ == icon@,
            r.replaces_id == self.replaces_id,
            r.timeout == self.timeout,
    {
        Notification { icon: icon.to_string(), ..self }
    }

    /// Sets the id of an earlier notification that this one replaces (0 = none).
    pub fn replaces_id(self, replaces_id: u32) -> (r: Self)
        ensures
            r.app_name == self.app_name,
            r.title == self.title,
            r.body == self.body,
            r.icon == self.icon,
            r.replaces_id == replaces_id,
            r.timeout == self.timeout,
    {
        Notification { replaces_id, ..self }
    }

    /// Sets the timeout in milliseconds: -1 for the server's default, 0 for persistent.
    pub fn timeout(self, timeout_ms: i32) -> (r: Self)
        ensures
            r.app_name == self.app_name,
            r.title == self.title,
            r.body == self.body,
            r.icon == self.icon,
            r.replaces_id == self.replaces_id,
            r.timeout == timeout_ms,
    {
        Notification { timeout: timeout_ms, ..self }
    }
}

} // verus!
