//! Notification email data and the subject line built for each
//! notification kind.
use vstd::prelude::*;

verus! {

/// One notification email, ready to send.
#[derive(Debug, Clone, PartialEq, Eq)]
pub struct EmailNotification {
    pub to_email: String,
    pub subject: String,
    pub text_body: String,
    pub html_body: String,
}

pub struct EmailNotificationV {
    pub to_email: Seq<char>,
    pub subject: Seq<char>,
    pub text_body: Seq<char>,
    pub html_body: Seq<char>,
}

impl DeepView for EmailNotification {
    type V = EmailNotificationV;

    open spec fn deep_view(&self) -> EmailNotificationV {
        EmailNotificationV {
            to_email: self.to_email@,
            subject: self.subject@,
            text_body: self.text_body@,
            html_body: self.html_body@,
        }
    }
}

/// The subject line of one notification: edits get their fixed wording,
/// every other kind names itself, and the word is appended when known.
pub open spec fn subject_view(kind: Seq<char>, word: Option<Seq<char>>) -> Seq<char> {
    if kind == "edit"@ {
        match word {
            Some(w) => "Lojban Dictionary: Definition updated - "@ + w,
            None => "Lojban Dictionary: Definition updated"@,
        }
    } else {
        match word {
            Some(w) => "Lojban Dictionary: "@ + kind + " - "@ + w,
            None => "Lojban Dictionary: "@ + kind,
        }
    }
}

/// Builds the subject line for one notification.
pub fn notification_subject(notification_type: &str, valsi_word: Option<&str>) -> (r: String)
    ensures
        r@ == subject_view(notification_type@, match valsi_word {
            Some(w) => Some(w@),
            None => None,
        }),
{
    let mut out: Vec<char> = Vec::new();
    if crate::chars::str_eq(notification_type, "edit") {
        match valsi_word {
            Some(w) => {
                crate::chars::push_chars(&mut out, "Lojban Dictionary: Definition updated - ");
                crate::chars::push_chars(&mut out, w);
            },
            None => {
                crate::chars::push_chars(&mut out, "Lojban Dictionary: Definition updated");
            },
        }
    } else {
        match valsi_word {
            Some(w) => {
                crate::chars::push_chars(&mut out, "Lojban Dictionary: ");
                crate::chars::push_chars(&mut out, notification_type);
                crate::chars::push_chars(&mut out, " - ");
                crate::chars::push_chars(&mut out, w);
                proof {
                    assert(out@ =~= "Lojban Dictionary: "@ + notification_type@ + " - "@ + w@);
                }
            },
            None => {
                crate::chars::push_chars(&mut out, "Lojban Dictionary: ");
                crate::chars::push_chars(&mut out, notification_type);
            },
        }
    }
    proof {
        assert(Seq::<char>::empty() + subject_view(
            notification_type@,
            match valsi_word {
                Some(w) => Some(w@),
                None => None,
            },
        ) =~= subject_view(
            notification_type@,
            match valsi_word {
                Some(w) => Some(w@),
                None => None,
            },
        ));
    }
    crate::chars::chars_to_string(&out)
}

} // verus!
