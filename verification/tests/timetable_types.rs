use homeworker_proxy::timetable::Lesson;
use homeworker_proxy::timetable::LessonStatus;
use homeworker_proxy::timetable::Subject;
use homeworker_proxy::timetable::Timetable;
use homeworker_proxy::timetable::TimetableColumn;

fn math() -> Subject {
    Subject {
        full_name: "Mathematics".to_string(),
        short_name: "Ma".to_string(),
        teacher: "Kim".to_string(),
        room: "101".to_string(),
        color: (10, 20, 30),
    }
}

#[test]
fn timetable_round_trip_through_clone() {
    let replacement = Subject {
        full_name: "Physics".to_string(),
        short_name: "Ph".to_string(),
        teacher: "Lee".to_string(),
        room: "102".to_string(),
        color: (40, 50, 60),
    };
    let table = Timetable {
        times: vec![vec!["08:00".to_string(), "08:45".to_string()]],
        columns: vec![TimetableColumn {
            name: "Monday".to_string(),
            lessons: vec![
                Some(Lesson { subject: math(), status: LessonStatus::Normal }),
                Some(Lesson {
                    subject: math(),
                    status: LessonStatus::Replaced(replacement),
                }),
                None,
            ],
        }],
    };
    let copy = table.clone();
    assert_eq!(copy, table);
    assert_eq!(copy.columns[0].lessons.len(), 3);
    assert!(copy.columns[0].lessons[2].is_none());
}

#[test]
fn lesson_status_distinguishes_variants() {
    let normal = LessonStatus::Normal;
    let cancelled = LessonStatus::Cancelled;
    assert_ne!(normal, cancelled);
    let replaced = LessonStatus::Replaced(math());
    assert!(matches!(replaced, LessonStatus::Replaced(ref s) if s.short_name == "Ma"));
}
