//! Endpoints of the payroll API.

mod pay_schedules;

pub use pay_schedules::PaySchedules;
