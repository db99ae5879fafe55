//! How the handling of a trigger can end badly.

use vstd::prelude::*;
use vstd::string::StringExecFns;

verus! {

/// An error that ends the handling of a trigger.
#[derive(Debug, PartialEq, Eq)]
pub enum HandlerError {
    /// A service failed, with this message.
    Service(String),
    /// A cron expression is not one, with the complaint of the parser.
    InvalidCron(String),
    /// There is no such alert.
    AlertNotFound { org: String, stream_name: String, stream_type: String, alert_name: String },
    /// There is no such pipeline.
    PipelineNotFound {
        org: String,
        stream_name: String,
        stream_type: String,
        pipeline_name: String,
    },
    /// The pipeline has no such derived stream.
    DerivedStreamNotFound { org: String, stream_name: String, stream_type: String, name: String },
}

#[verifier::ext_equal]
pub enum HandlerErrorView {
    Service(Seq<char>),
    InvalidCron(Seq<char>),
    AlertNotFound {
        org: Seq<char>,
        stream_name: Seq<char>,
        stream_type: Seq<char>,
        alert_name: Seq<char>,
    },
    PipelineNotFound {
        org: Seq<char>,
        stream_name: Seq<char>,
        stream_type: Seq<char>,
        pipeline_name: Seq<char>,
    },
    DerivedStreamNotFound {
        org: Seq<char>,
        stream_name: Seq<char>,
        stream_type: Seq<char>,
        name: Seq<char>,
    },
}

impl View for HandlerError {
    type V = HandlerErrorView;

    open spec fn view(&self) -> HandlerErrorView {
        match self {
            HandlerError::Service(message) => HandlerErrorView::Service(message@),
            HandlerError::InvalidCron(complaint) => HandlerErrorView::InvalidCron(complaint@),
            HandlerError::AlertNotFound { org, stream_name, stream_type, alert_name } => {
                HandlerErrorView::AlertNotFound {
                    org: org@,
                    stream_name: stream_name@,
                    stream_type: stream_type@,
                    alert_name: alert_name@,
                }
            },
            HandlerError::PipelineNotFound { org, stream_name, stream_type, pipeline_name } => {
                HandlerErrorView::PipelineNotFound {
                    org: org@,
                    stream_name: stream_name@,
                    stream_type: stream_type@,
                    pipeline_name: pipeline_name@,
                }
            },
            HandlerError::DerivedStreamNotFound { org, stream_name, stream_type, name } => {
                HandlerErrorView::DerivedStreamNotFound {
                    org: org@,
                    stream_name: stream_name@,
                    stream_type: stream_type@,
                    name: name@,
                }
            },
        }
    }
}

/// Four names with a slash between each two.
pub open spec fn slashed(a: Seq<char>, b: Seq<char>, c: Seq<char>, d: Seq<char>) -> Seq<char> {
    a + "/"@ + b + "/"@ + c + "/"@ + d
}

impl HandlerErrorView {
    /// What the error says.
    pub open spec fn message(self) -> Seq<char> {
        match self {
            HandlerErrorView::Service(message) => message,
            HandlerErrorView::InvalidCron(complaint) => complaint,
            HandlerErrorView::AlertNotFound { org, stream_name, stream_type, alert_name } => {
                "alert not found: "@ + slashed(org, stream_name, stream_type, alert_name)
            },
            HandlerErrorView::PipelineNotFound { org, stream_name, stream_type, pipeline_name } => {
                "Pipeline associated with trigger not found: "@ + slashed(
                    org,
                    stream_name,
                    stream_type,
                    pipeline_name,
                )
            },
            HandlerErrorView::DerivedStreamNotFound { org, stream_name, stream_type, name } => {
                "DerivedStream associated with the trigger not found in pipeline: "@ + slashed(
                    org,
                    stream_name,
                    stream_type,
                    name,
                )
            },
        }
    }
}

/// A lead and four names with a slash between each two.
fn lead_and_names(lead: &str, a: &str, b: &str, c: &str, d: &str) -> (text: String)
    ensures
        text@ == lead@ + slashed(a@, b@, c@, d@),
{
    let text = lead.to_owned().concat(a).concat("/").concat(b).concat("/").concat(c).concat(
        "/",
    ).concat(d);
    assert(text@ =~= lead@ + slashed(a@, b@, c@, d@));
    text
}

impl HandlerError {
    /// What the error says.
    pub fn message(&self) -> (text: String)
        ensures
            text@ == self@.message(),
    {
        match self {
            HandlerError::Service(message) => message.clone(),
            HandlerError::InvalidCron(complaint) => complaint.clone(),
            HandlerError::AlertNotFound { org, stream_name, stream_type, alert_name } => {
                lead_and_names(
                    "alert not found: ",
                    org.as_str(),
                    stream_name.as_str(),
                    stream_type.as_str(),
                    alert_name.as_str(),
                )
            },
            HandlerError::PipelineNotFound { org, stream_name, stream_type, pipeline_name } => {
                lead_and_names(
                    "Pipeline associated with trigger not found: ",
                    org.as_str(),
                    stream_name.as_str(),
                    stream_type.as_str(),
                    pipeline_name.as_str(),
                )
            },
            HandlerError::DerivedStreamNotFound { org, stream_name, stream_type, name } => {
                lead_and_names(
                    "DerivedStream associated with the trigger not found in pipeline: ",
                    org.as_str(),
                    stream_name.as_str(),
                    stream_type.as_str(),
                    name.as_str(),
                )
            },
        }
    }
}

/// Why a trigger cannot be handled at all.  None of these is answered by an
/// error: the handling breaks off with nothing more written or published.
#[derive(Debug, Clone, Copy, PartialEq, Eq, Structural)]
pub enum Fault {
    /// The module key does not have as many columns as its module asks for.
    MalformedKey,
    /// An interval, or an instant that it leads to, is out of range.
    TimeOutOfRange,
    /// The time zone lies a day or more from UTC.
    OffsetOutOfRange,
    /// The cron expression has no further run.
    NoFurtherRun,
    /// The count of retries cannot grow.
    TooManyRetries,
    /// The event does not answer the last action.
    UnexpectedEvent,
}

/// What is not found is named in full: the organisation, the stream's name, the
/// stream's type and the thing itself, with a slash between each two.
pub proof fn law_error_names_what_is_missing(
    org: Seq<char>,
    stream_name: Seq<char>,
    stream_type: Seq<char>,
    missing: Seq<char>,
)
    ensures
        (HandlerErrorView::AlertNotFound {
            org,
            stream_name,
            stream_type,
            alert_name: missing,
        }).message() == "alert not found: "@ + (org + "/"@ + stream_name + "/"@ + stream_type + "/"@
            + missing),
        (HandlerErrorView::PipelineNotFound {
            org,
            stream_name,
            stream_type,
            pipeline_name: missing,
        }).message() == "Pipeline associated with trigger not found: "@ + (org + "/"@ + stream_name
            + "/"@ + stream_type + "/"@ + missing),
        (HandlerErrorView::DerivedStreamNotFound {
            org,
            stream_name,
            stream_type,
            name: missing,
        }).message() == "DerivedStream associated with the trigger not found in pipeline: "@ + (org
            + "/"@ + stream_name + "/"@ + stream_type + "/"@ + missing),
{
}

/// What a service or the cron parser said is handed on word for word.
pub proof fn law_error_keeps_the_message(message: Seq<char>)
    ensures
        HandlerErrorView::Service(message).message() == message,
        HandlerErrorView::InvalidCron(message).message() == message,
{
}

/// The view of an error holds each of its texts.
pub proof fn law_error_view_is_faithful(
    text: String,
    org: String,
    stream_name: String,
    stream_type: String,
    missing: String,
)
    ensures
        HandlerError::Service(text)@ == HandlerErrorView::Service(text@),
        HandlerError::InvalidCron(text)@ == HandlerErrorView::InvalidCron(text@),
        (HandlerError::AlertNotFound { org, stream_name, stream_type, alert_name: missing })@ == (
        HandlerErrorView::AlertNotFound {
            org: org@,
            stream_name: stream_name@,
            stream_type: stream_type@,
            alert_name: missing@,
        }),
        (HandlerError::PipelineNotFound {
            org,
            stream_name,
            stream_type,
            pipeline_name: missing,
        })@ == (HandlerErrorView::PipelineNotFound {
            org: org@,
            stream_name: stream_name@,
            stream_type: stream_type@,
            pipeline_name: missing@,
        }),
        (HandlerError::DerivedStreamNotFound { org, stream_name, stream_type, name: missing })@ == (
        HandlerErrorView::DerivedStreamNotFound {
            org: org@,
            stream_name: stream_name@,
            stream_type: stream_type@,
            name: missing@,
        }),
{
}

} // verus!
