//! Sending messages.

pub mod send_email;
pub mod send_email_batch;
pub mod send_email_batch_with_templates;
pub mod send_email_with_template;

pub use send_email::{
    Attachment, Header, MetadataEntry, SendEmailRequest, SendEmailResponse,
    SendEmailResponseView, TrackLink,
};
pub use send_email_batch::{SendEmailBatchRequest, SendEmailBatchResponse};
pub use send_email_batch_with_templates::SendEmailBatchWithTemplatesRequest;
pub use send_email_with_template::{SendEmailWithTemplateRequest, TemplateModel};
