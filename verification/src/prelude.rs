//! The commonly used items of the crate under one roof.

pub use crate::error::CloseError;
pub use crate::monitor::callback::CallbackProgressMonitor;
pub use crate::monitor::sub::ChildMonitor;
pub use crate::monitor::ProgressMonitor;
pub use crate::monitor::ProgressMonitorDivision;
pub use crate::monitor::ProgressSink;
pub use crate::work::numeric::NumericWork;
pub use crate::work::set_work::Label;
pub use crate::work::set_work::SetWork;
pub use crate::work::AddError;
pub use crate::work::Work;
