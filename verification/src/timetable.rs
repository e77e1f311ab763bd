//! The timetable view-model the client renders from upstream data: a grid
//! of columns, each holding the lessons of one day. This is plain display
//! state; the forwarding core never reads it.

use vstd::prelude::*;

verus! {

/// A whole timetable: the time rows and one column per day.
#[derive(PartialEq, Clone, Debug)]
pub struct Timetable {
    pub times: Vec<Vec<String>>,
    pub columns: Vec<TimetableColumn>,
}

/// One day's column: its heading and one optional lesson per slot.
#[derive(PartialEq, Clone, Debug)]
pub struct TimetableColumn {
    pub name: String,
    pub lessons: Vec<Option<Lesson>>,
}

/// One scheduled lesson and its current status.
#[derive(PartialEq, Clone, Debug)]
pub struct Lesson {
    pub subject: Subject,
    pub status: LessonStatus,
}

/// A subject as displayed: names, teacher, room, and an RGB color.
#[derive(PartialEq, Debug)]
pub struct Subject {
    pub full_name: String,
    pub short_name: String,
    pub teacher: String,
    pub room: String,
    pub color: (u8, u8, u8),
}

impl Clone for Subject {
    fn clone(&self) -> (r: Subject)
        ensures
            r == *self,
    {
        Subject {
            full_name: self.full_name.clone(),
            short_name: self.short_name.clone(),
            teacher: self.teacher.clone(),
            room: self.room.clone(),
            color: self.color,
        }
    }
}

/// Whether a lesson takes place as planned, is cancelled, or is replaced
/// by another subject.
#[derive(PartialEq, Clone, Debug)]
pub enum LessonStatus {
    Normal,
    Cancelled,
    Replaced(Subject),
}

} // verus!
