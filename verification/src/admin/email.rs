//! Trying out the delivery of mail.
use crate::text;
use vstd::prelude::*;

verus! {

#[derive(Debug)]
pub struct TestEmailRequest {
    pub to: String,
}

#[derive(Debug)]
pub struct TestEmailResponse {
    pub success: bool,
    pub message: String,
}

/// Why a mail was not delivered.
#[derive(Debug, Clone, Copy, PartialEq, Eq, Structural)]
pub enum SmtpCategory {
    /// No mail server is set up.
    NotConfigured,
    /// Anything else.
    Other,
}

/// A mail.
#[derive(Debug)]
pub struct EmailMessage {
    pub to: String,
    pub subject: String,
    pub text_body: String,
    pub html_body: Option<String>,
    pub from_name_override: Option<String>,
}

/// Whether a text looks like a mail address.
pub open spec fn looks_like_email(s: Seq<char>) -> bool {
    s.contains('@') && s.contains('.')
}

/// Whether a text looks like a mail address.
pub fn is_email_like(to: &str) -> (r: bool)
    ensures
        r == looks_like_email(to@),
{
    text::contains_char(to, '@') && text::contains_char(to, '.')
}

fn around(a: &str, b: &str, c: &str) -> (r: String)
    ensures
        r@ == a@ + b@ + c@,
{
    let mut s = text::owned(a);
    s.append(b);
    s.append(c);
    s
}

/// The mail that tries out the delivery, from a node that goes by the given name.
pub fn test_message(to: &str, node: Option<&str>) -> (r: EmailMessage)
    ensures
        r.to@ == to@,
        ({
            let name = match node {
                Some(n) => n@,
                None => "cloudillo"@,
            };
            &&& r.subject@ == "Test Email from Cloudillo ("@ + name + ")"@
            &&& r.text_body@ == "This is a test email from your Cloudillo instance ("@ + name
                + ").\n\nIf you received this email, your email configuration is working correctly.\n\n-- Cloudillo"@
            &&& r.html_body.deep_view() == Some(
                "<html><body><h2>Test Email from Cloudillo</h2><p>This is a test email from your Cloudillo instance (<strong>"@
                    + name
                    + "</strong>).</p><p>If you received this email, your email configuration is working correctly.</p><hr><p style=\"color: #666;\">-- Cloudillo</p></body></html>"@,
            )
            &&& r.from_name_override.deep_view() == Some("Cloudillo | "@ + text::uppercase_of(name))
        }),
{
    let name: &str = match node {
        Some(n) => n,
        None => "cloudillo",
    };
    let mut sender = text::owned("Cloudillo | ");
    sender.append(text::to_uppercase(name).as_str());
    EmailMessage {
        to: text::owned(to),
        subject: around("Test Email from Cloudillo (", name, ")"),
        text_body: around(
            "This is a test email from your Cloudillo instance (",
            name,
            ").\n\nIf you received this email, your email configuration is working correctly.\n\n-- Cloudillo",
        ),
        html_body: Some(
            around(
                "<html><body><h2>Test Email from Cloudillo</h2><p>This is a test email from your Cloudillo instance (<strong>",
                name,
                "</strong>).</p><p>If you received this email, your email configuration is working correctly.</p><hr><p style=\"color: #666;\">-- Cloudillo</p></body></html>",
            ),
        ),
        from_name_override: Some(sender),
    }
}

/// How the trial is answered: a status code, and a code for what went wrong.
#[derive(Debug)]
pub struct TestEmailAnswer {
    pub http_status: u16,
    pub error_code: Option<&'static str>,
    pub response: Option<TestEmailResponse>,
}

/// Decides on the answer to a trial. `sent` is what became of the mail, and counts only where
/// the address looks like one.
pub fn send_test_email(req: &TestEmailRequest, sent: Result<(), SmtpCategory>) -> (r: TestEmailAnswer)
    ensures
        !looks_like_email(req.to@) ==> r.http_status == 400 && r.error_code.deep_view() == Some(
            "INVALID_EMAIL_FORMAT"@,
        ) && r.response is None,
        looks_like_email(req.to@) && sent is Ok ==> r.http_status == 200 && r.error_code is None
            && r.response is Some && r.response->0.success && r.response->0.message@
            == "Test email sent to "@ + req.to@,
        looks_like_email(req.to@) && sent is Err ==> r.response is None && (
        if sent->Err_0 == SmtpCategory::NotConfigured {
            r.http_status == 412 && r.error_code.deep_view() == Some("SMTP_NOT_CONFIGURED"@)
        } else {
            r.http_status == 503 && r.error_code.deep_view() == Some("SMTP_SEND_FAILED"@)
        }),
{
    if !is_email_like(req.to.as_str()) {
        return TestEmailAnswer {
            http_status: 400,
            error_code: Some("INVALID_EMAIL_FORMAT"),
            response: None,
        };
    }
    match sent {
        Ok(()) => {
            let mut message = text::owned("Test email sent to ");
            message.append(req.to.as_str());
            TestEmailAnswer {
                http_status: 200,
                error_code: None,
                response: Some(TestEmailResponse { success: true, message }),
            }
        },
        Err(SmtpCategory::NotConfigured) => TestEmailAnswer {
            http_status: 412,
            error_code: Some("SMTP_NOT_CONFIGURED"),
            response: None,
        },
        Err(SmtpCategory::Other) => TestEmailAnswer {
            http_status: 503,
            error_code: Some("SMTP_SEND_FAILED"),
            response: None,
        },
    }
}

} // verus!
