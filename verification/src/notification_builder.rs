//! The builder of a single notification: each setter fills one field of
//! the [`NotificationData`] and leaves every other field as it was. Showing
//! the notification is the application's part.
use vstd::prelude::*;
use crate::models::{
    Attachment, NotificationData, Schedule, WindowsAction, WindowsInput, WindowsPriority, WindowsProgress,
    WindowsScenario,
};

verus! {

/// Builder of one notification.
#[derive(Debug)]
pub struct NotificationBuilder {
    /// The notification built so far.
    pub data: NotificationData,
}

impl NotificationBuilder {
    /// A builder for a blank notification (see [`NotificationData::default`]).
    pub fn new() -> (b: NotificationBuilder)
        ensures
            crate::models::is_blank(b.data),
    {
        NotificationBuilder { data: NotificationData::default() }
    }

    /// Sets the notification id.
    pub fn id(self, id: i32) -> (b: NotificationBuilder)
        ensures
            b.data == (NotificationData { id: id, ..self.data }),
    {
        NotificationBuilder { data: NotificationData { id, ..self.data } }
    }

    /// Sets the channel id.
    pub fn channel_id(self, channel_id: String) -> (b: NotificationBuilder)
        ensures
            b.data == (NotificationData { channel_id: Some(channel_id), ..self.data }),
    {
        NotificationBuilder { data: NotificationData { channel_id: Some(channel_id), ..self.data } }
    }

    /// Sets the title.
    pub fn title(self, title: String) -> (b: NotificationBuilder)
        ensures
            b.data == (NotificationData { title: Some(title), ..self.data }),
    {
        NotificationBuilder { data: NotificationData { title: Some(title), ..self.data } }
    }

    /// Sets the body.
    pub fn body(self, body: String) -> (b: NotificationBuilder)
        ensures
            b.data == (NotificationData { body: Some(body), ..self.data }),
    {
        NotificationBuilder { data: NotificationData { body: Some(body), ..self.data } }
    }

    /// Sets the long body text.
    pub fn large_body(self, large_body: String) -> (b: NotificationBuilder)
        ensures
            b.data == (NotificationData { large_body: Some(large_body), ..self.data }),
    {
        NotificationBuilder { data: NotificationData { large_body: Some(large_body), ..self.data } }
    }

    /// Sets the summary line.
    pub fn summary(self, summary: String) -> (b: NotificationBuilder)
        ensures
            b.data == (NotificationData { summary: Some(summary), ..self.data }),
    {
        NotificationBuilder { data: NotificationData { summary: Some(summary), ..self.data } }
    }

    /// Sets the action type id.
    pub fn action_type_id(self, action_type_id: String) -> (b: NotificationBuilder)
        ensures
            b.data == (NotificationData { action_type_id: Some(action_type_id), ..self.data }),
    {
        NotificationBuilder { data: NotificationData { action_type_id: Some(action_type_id), ..self.data } }
    }

    /// Sets the group.
    pub fn group(self, group: String) -> (b: NotificationBuilder)
        ensures
            b.data == (NotificationData { group: Some(group), ..self.data }),
    {
        NotificationBuilder { data: NotificationData { group: Some(group), ..self.data } }
    }

    /// Sets the sound.
    pub fn sound(self, sound: String) -> (b: NotificationBuilder)
        ensures
            b.data == (NotificationData { sound: Some(sound), ..self.data }),
    {
        NotificationBuilder { data: NotificationData { sound: Some(sound), ..self.data } }
    }

    /// Sets the icon.
    pub fn icon(self, icon: String) -> (b: NotificationBuilder)
        ensures
            b.data == (NotificationData { icon: Some(icon), ..self.data }),
    {
        NotificationBuilder { data: NotificationData { icon: Some(icon), ..self.data } }
    }

    /// Sets the large icon.
    pub fn large_icon(self, large_icon: String) -> (b: NotificationBuilder)
        ensures
            b.data == (NotificationData { large_icon: Some(large_icon), ..self.data }),
    {
        NotificationBuilder { data: NotificationData { large_icon: Some(large_icon), ..self.data } }
    }

    /// Sets the icon colour.
    pub fn icon_color(self, icon_color: String) -> (b: NotificationBuilder)
        ensures
            b.data == (NotificationData { icon_color: Some(icon_color), ..self.data }),
    {
        NotificationBuilder { data: NotificationData { icon_color: Some(icon_color), ..self.data } }
    }

    /// Sets the tag.
    pub fn tag(self, tag: String) -> (b: NotificationBuilder)
        ensures
            b.data == (NotificationData { tag: Some(tag), ..self.data }),
    {
        NotificationBuilder { data: NotificationData { tag: Some(tag), ..self.data } }
    }

    /// Sets the hero image.
    pub fn hero_image(self, hero_image: String) -> (b: NotificationBuilder)
        ensures
            b.data == (NotificationData { hero_image: Some(hero_image), ..self.data }),
    {
        NotificationBuilder { data: NotificationData { hero_image: Some(hero_image), ..self.data } }
    }

    /// Marks the notification as its group's summary.
    pub fn group_summary(self) -> (b: NotificationBuilder)
        ensures
            b.data == (NotificationData { group_summary: true, ..self.data }),
    {
        NotificationBuilder { data: NotificationData { group_summary: true, ..self.data } }
    }

    /// Marks the notification as ongoing.
    pub fn ongoing(self) -> (b: NotificationBuilder)
        ensures
            b.data == (NotificationData { ongoing: true, ..self.data }),
    {
        NotificationBuilder { data: NotificationData { ongoing: true, ..self.data } }
    }

    /// Makes a tap dismiss the notification.
    pub fn auto_cancel(self) -> (b: NotificationBuilder)
        ensures
            b.data == (NotificationData { auto_cancel: true, ..self.data }),
    {
        NotificationBuilder { data: NotificationData { auto_cancel: true, ..self.data } }
    }

    /// Silences the notification.
    pub fn silent(self) -> (b: NotificationBuilder)
        ensures
            b.data == (NotificationData { silent: true, ..self.data }),
    {
        NotificationBuilder { data: NotificationData { silent: true, ..self.data } }
    }

    /// Removes the notification from the Action Center on reboot.
    pub fn expires_on_reboot(self) -> (b: NotificationBuilder)
        ensures
            b.data == (NotificationData { expires_on_reboot: true, ..self.data }),
    {
        NotificationBuilder { data: NotificationData { expires_on_reboot: true, ..self.data } }
    }

    /// Enables background COM activation.
    pub fn background_activation(self) -> (b: NotificationBuilder)
        ensures
            b.data == (NotificationData { background_activation: true, ..self.data }),
    {
        NotificationBuilder { data: NotificationData { background_activation: true, ..self.data } }
    }

    /// Appends a line of the inbox style.
    pub fn inbox_line(self, item: String) -> (b: NotificationBuilder)
        ensures
            b.data.inbox_lines@ == self.data.inbox_lines@.push(item),
            b.data == (NotificationData { inbox_lines: b.data.inbox_lines, ..self.data }),
    {
        let mut data = self.data;
        data.inbox_lines.push(item);
        NotificationBuilder { data }
    }

    /// Appends an action button.
    pub fn windows_action(self, item: WindowsAction) -> (b: NotificationBuilder)
        ensures
            b.data.windows_actions@ == self.data.windows_actions@.push(item),
            b.data == (NotificationData { windows_actions: b.data.windows_actions, ..self.data }),
    {
        let mut data = self.data;
        data.windows_actions.push(item);
        NotificationBuilder { data }
    }

    /// Appends an input field.
    pub fn windows_input(self, item: WindowsInput) -> (b: NotificationBuilder)
        ensures
            b.data.windows_inputs@ == self.data.windows_inputs@.push(item),
            b.data == (NotificationData { windows_inputs: b.data.windows_inputs, ..self.data }),
    {
        let mut data = self.data;
        data.windows_inputs.push(item);
        NotificationBuilder { data }
    }

    /// Sets the progress bar.
    pub fn progress(self, progress: WindowsProgress) -> (b: NotificationBuilder)
        ensures
            b.data == (NotificationData { progress: Some(progress), ..self.data }),
    {
        NotificationBuilder { data: NotificationData { progress: Some(progress), ..self.data } }
    }

    /// Sets the expiry in milliseconds.
    pub fn expiry_ms(self, expiry_ms: u64) -> (b: NotificationBuilder)
        ensures
            b.data == (NotificationData { expiry_ms: Some(expiry_ms), ..self.data }),
    {
        NotificationBuilder { data: NotificationData { expiry_ms: Some(expiry_ms), ..self.data } }
    }

    /// Sets the scenario.
    pub fn scenario(self, scenario: WindowsScenario) -> (b: NotificationBuilder)
        ensures
            b.data == (NotificationData { scenario: Some(scenario), ..self.data }),
    {
        NotificationBuilder { data: NotificationData { scenario: Some(scenario), ..self.data } }
    }

    /// Sets the priority.
    pub fn priority(self, priority: WindowsPriority) -> (b: NotificationBuilder)
        ensures
            b.data == (NotificationData { priority: Some(priority), ..self.data }),
    {
        NotificationBuilder { data: NotificationData { priority: Some(priority), ..self.data } }
    }

    /// Sets the schedule.
    pub fn schedule(self, schedule: Schedule) -> (b: NotificationBuilder)
        ensures
            b.data == (NotificationData { schedule: Some(schedule), ..self.data }),
    {
        NotificationBuilder { data: NotificationData { schedule: Some(schedule), ..self.data } }
    }

    /// Appends an attachment.
    pub fn attachment(self, attachment: Attachment) -> (b: NotificationBuilder)
        ensures
            b.data.attachments@ == self.data.attachments@.push(attachment),
            b.data == (NotificationData { attachments: b.data.attachments, ..self.data }),
    {
        let mut data = self.data;
        data.attachments.push(attachment);
        NotificationBuilder { data }
    }

    /// Sets the extra value of `key` to `value`, the value's JSON text; a
    /// later value for the same key replaces the earlier one.
    pub fn extra(self, key: String, value: String) -> (b: NotificationBuilder)
        ensures
            b.data.extra@ == self.data.extra@.insert(key@, value@),
            b.data == (NotificationData { extra: b.data.extra, ..self.data }),
    {
        let mut data = self.data;
        data.extra.insert(key, value);
        NotificationBuilder { data }
    }
}

} // verus!
