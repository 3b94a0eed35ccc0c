//! The records the service sends and receives, held as plain values.
use vstd::prelude::*;

verus! {

/// Credentials sent to `/auth/login`.
#[derive(Debug, Clone)]
pub struct LoginRequest {
    pub email: String,
    pub password: String,
}

/// Tokens returned by `/auth/login`.
#[derive(Debug, Clone)]
pub struct LoginResponse {
    pub access_token: String,
    pub refresh_token: String,
}

/// The signed-in user as the client remembers it.
#[derive(Debug, Clone)]
pub struct Session {
    pub access_token: String,
    pub refresh_token: String,
    pub role: String,
    pub email: String,
}

/// A user account.
#[derive(Debug, Clone)]
pub struct User {
    pub id: i64,
    pub name: String,
    pub email: String,
}

/// A class as listed by `/classes`.
#[derive(Debug, Clone)]
pub struct ClassRoom {
    pub id: i64,
    pub title: String,
}

/// Short reference to the class a task belongs to.
#[derive(Debug, Clone)]
pub struct ClassRef {
    pub id: String,
    pub code: String,
    pub period: String,
    pub grade: String,
}

/// A task as returned by `/tasks`.
#[derive(Debug, Clone)]
pub struct Task {
    pub id: String,
    pub class_id: String,
    pub title: String,
    pub description: Option<String>,
    pub file_url: Option<String>,
    pub score: i32,
    pub expires_at: Option<String>,
    pub created_at: String,
    pub updated_at: String,
    pub class: ClassRef,
    pub created_by: User,
}

/// The student who sent a submission.
#[derive(Debug, Clone)]
pub struct SubmissionStudent {
    pub id: String,
    pub name: String,
    pub email: String,
}

/// An answer sent by a student to a task.
#[derive(Debug, Clone)]
pub struct Submission {
    pub id: String,
    pub task_id: String,
    pub student: SubmissionStudent,
    pub file_url: Option<String>,
    pub content: Option<String>,
    pub grade: Option<u32>,
    pub feedback: Option<String>,
    pub graded_at: Option<String>,
    pub submitted_at: String,
}

/// The grade a teacher gives to a submission.
#[derive(Debug, Clone)]
pub struct GradeSubmissionRequest {
    pub grade: u32,
    pub feedback: Option<String>,
}

/// A task as shown in a class report.
#[derive(Debug, Clone)]
pub struct ReportTask {
    pub id: String,
    pub title: String,
    pub score: u32,
}

/// A student's totals in a class report.
#[derive(Debug, Clone)]
pub struct ReportStudent {
    pub id: String,
    pub name: String,
    pub email: String,
    pub total_earned: u32,
    pub total_possible: u32,
}

/// The report of one class.
#[derive(Debug, Clone)]
pub struct ClassReport {
    pub class_id: String,
    pub class_code: String,
    pub tasks: Vec<ReportTask>,
    pub students: Vec<ReportStudent>,
}

/// User counts on the administrator's dashboard.
#[derive(Debug, Clone)]
pub struct AdminUsers {
    pub total: u32,
    pub admins: u32,
    pub teachers: u32,
    pub students: u32,
}

/// Class count on the administrator's dashboard.
#[derive(Debug, Clone)]
pub struct AdminClasses {
    pub total: u32,
}

/// Task counts on the administrator's dashboard.
#[derive(Debug, Clone)]
pub struct AdminTasks {
    pub total: u32,
    pub submissions: u32,
    pub pending_grades: u32,
}

/// The administrator's dashboard.
#[derive(Debug, Clone)]
pub struct AdminDashboard {
    pub users: AdminUsers,
    pub classes: AdminClasses,
    pub tasks: AdminTasks,
}

/// Totals on a teacher's dashboard.
#[derive(Debug, Clone)]
pub struct TeacherOverview {
    pub total_classes: u32,
    pub total_students: u32,
    pub total_tasks: u32,
    pub pending_grades: u32,
}

/// One class on a teacher's dashboard.
#[derive(Debug, Clone)]
pub struct TeacherClass {
    pub id: String,
    pub code: String,
    pub period: String,
    pub grade: String,
    pub student_count: u32,
    pub task_count: u32,
    pub pending_grades: u32,
}

/// A teacher's dashboard.
#[derive(Debug, Clone)]
pub struct TeacherDashboard {
    pub overview: TeacherOverview,
    pub classes: Vec<TeacherClass>,
}

/// Task counts on a student's dashboard.
#[derive(Debug, Clone)]
pub struct StudentTasks {
    pub total: u32,
    pub submitted: u32,
    pub pending: u32,
    pub expired: u32,
    pub graded: u32,
}

} // verus!
