use vstd::prelude::*;

use crate::text::{copy_opt, str_eq};

verus! {

/// Where a project stands in its life.
#[derive(Clone, Copy, Debug, PartialEq, Eq, Structural)]
pub enum ProjectStatus {
    Active,
    Completed,
    Archived,
    OnHold,
}

impl ProjectStatus {
    /// The stored name of the status.
    pub open spec fn text(self) -> Seq<char> {
        match self {
            ProjectStatus::Active => "active"@,
            ProjectStatus::Completed => "completed"@,
            ProjectStatus::Archived => "archived"@,
            ProjectStatus::OnHold => "on_hold"@,
        }
    }

    pub fn as_str(&self) -> (r: &'static str)
        ensures
            r@ == self.text(),
    {
        match self {
            ProjectStatus::Active => "active",
            ProjectStatus::Completed => "completed",
            ProjectStatus::Archived => "archived",
            ProjectStatus::OnHold => "on_hold",
        }
    }

    /// The status whose stored name is `s`, if there is one.
    pub fn from_str(s: &str) -> (r: Option<Self>)
        ensures
            match r {
                Some(st) => s@ == st.text(),
                None => forall|st: ProjectStatus| s@ != st.text(),
            },
    {
        if str_eq(s, "active") {
            Some(ProjectStatus::Active)
        } else if str_eq(s, "completed") {
            Some(ProjectStatus::Completed)
        } else if str_eq(s, "archived") {
            Some(ProjectStatus::Archived)
        } else if str_eq(s, "on_hold") {
            Some(ProjectStatus::OnHold)
        } else {
            None
        }
    }
}

/// Where an invoice stands in its life.
#[derive(Clone, Copy, Debug, PartialEq, Eq, Structural)]
pub enum InvoiceStatus {
    Draft,
    Sent,
    Paid,
    Overdue,
    Cancelled,
}

impl InvoiceStatus {
    /// The stored name of the status.
    pub open spec fn text(self) -> Seq<char> {
        match self {
            InvoiceStatus::Draft => "draft"@,
            InvoiceStatus::Sent => "sent"@,
            InvoiceStatus::Paid => "paid"@,
            InvoiceStatus::Overdue => "overdue"@,
            InvoiceStatus::Cancelled => "cancelled"@,
        }
    }

    pub fn as_str(&self) -> (r: &'static str)
        ensures
            r@ == self.text(),
    {
        match self {
            InvoiceStatus::Draft => "draft",
            InvoiceStatus::Sent => "sent",
            InvoiceStatus::Paid => "paid",
            InvoiceStatus::Overdue => "overdue",
            InvoiceStatus::Cancelled => "cancelled",
        }
    }

    /// The status whose stored name is `s`, if there is one.
    pub fn from_str(s: &str) -> (r: Option<Self>)
        ensures
            match r {
                Some(st) => s@ == st.text(),
                None => forall|st: InvoiceStatus| s@ != st.text(),
            },
    {
        if str_eq(s, "draft") {
            Some(InvoiceStatus::Draft)
        } else if str_eq(s, "sent") {
            Some(InvoiceStatus::Sent)
        } else if str_eq(s, "paid") {
            Some(InvoiceStatus::Paid)
        } else if str_eq(s, "overdue") {
            Some(InvoiceStatus::Overdue)
        } else if str_eq(s, "cancelled") {
            Some(InvoiceStatus::Cancelled)
        } else {
            None
        }
    }
}

/// A key and its value among the application's settings.
#[derive(Clone, Debug, PartialEq, Eq)]
pub struct AppSetting {
    pub key: String,
    pub value: String,
}

/// The subscription level, which callers consult before invoking the core.
#[derive(Clone, Copy, Debug, PartialEq, Eq, Structural)]
pub enum Tier {
    Free,
    Pro,
    Premium,
}

/// What `str::to_lowercase` makes of a string: it depends on the characters
/// alone.
pub uninterp spec fn lower_of(s: Seq<char>) -> Seq<char>;

/// Relies on `str::to_lowercase`: Unicode lower-case mapping of every
/// character, which leaves an empty string empty.
#[verifier::external_body]
fn lowercase(s: &str) -> (r: String)
    ensures
        r@ == lower_of(s@),
        s@.len() == 0 ==> r@.len() == 0,
{
    s.to_lowercase()
}

/// The tier named by an already lower-cased setting value: "pro" and
/// "premium" name the paid tiers, anything else means the free one.
pub open spec fn tier_named(s: Seq<char>) -> Tier {
    if s == "pro"@ {
        Tier::Pro
    } else if s == "premium"@ {
        Tier::Premium
    } else {
        Tier::Free
    }
}

impl Tier {
    /// The tier named by `s` once lower-cased.
    pub fn from_lowercase(s: &str) -> (r: Tier)
        ensures
            r == tier_named(s@),
    {
        if str_eq(s, "pro") {
            Tier::Pro
        } else if str_eq(s, "premium") {
            Tier::Premium
        } else {
            Tier::Free
        }
    }

    /// The tier named by a setting value, compared without regard to case.
    pub fn from_string(s: &str) -> (r: Tier)
        ensures
            r == tier_named(lower_of(s@)),
    {
        let folded = lowercase(s);
        Tier::from_lowercase(folded.as_str())
    }
}

/// The single running or paused timing session. Instants are whole seconds
/// since the Unix epoch.
#[derive(Clone, Debug, PartialEq, Eq)]
pub struct ActiveTimer {
    pub project_id: String,
    pub description: Option<String>,
    /// When the session began; pauses and resumes leave it alone.
    pub session_start: i64,
    /// Start of the current unpaused interval; frozen while paused.
    pub start_time: i64,
    /// Seconds banked from all earlier unpaused intervals.
    pub accumulated_secs: i64,
    pub is_paused: bool,
}

impl ActiveTimer {
    pub fn copy(&self) -> (r: ActiveTimer)
        ensures
            r == *self,
    {
        ActiveTimer {
            project_id: self.project_id.clone(),
            description: copy_opt(&self.description),
            session_start: self.session_start,
            start_time: self.start_time,
            accumulated_secs: self.accumulated_secs,
            is_paused: self.is_paused,
        }
    }
}

/// A record of worked time. Instants are whole seconds since the Unix epoch.
#[derive(Clone, Debug, PartialEq, Eq)]
pub struct TimeEntry {
    pub id: String,
    pub project_id: String,
    pub description: Option<String>,
    pub start_time: i64,
    pub end_time: i64,
    pub duration_secs: i64,
    pub is_billable: bool,
    pub is_manual: bool,
    pub invoice_id: Option<String>,
    pub created_at: i64,
}

/// What a caller supplies to record time by hand.
#[derive(Clone, Debug, PartialEq, Eq)]
pub struct CreateManualTimeEntry {
    pub project_id: String,
    pub description: Option<String>,
    pub start_time: i64,
    pub end_time: i64,
    pub is_billable: bool,
}

/// A read-only view of the timer for display.
#[derive(Clone, Debug, PartialEq, Eq)]
pub struct TimerState {
    pub is_running: bool,
    pub is_paused: bool,
    pub project_id: Option<String>,
    pub project_name: Option<String>,
    pub description: Option<String>,
    pub elapsed_secs: i64,
    pub start_time: Option<i64>,
}

/// An invoice. Money is held in cents, the tax rate in hundredths of a
/// percent (1000 is 10%). `subtotal`, `tax_amount` and `total` are derived
/// from the line items and written only by the totals engine.
#[derive(Clone, Debug, PartialEq, Eq)]
pub struct Invoice {
    pub id: String,
    pub invoice_number: String,
    pub client_id: String,
    pub status: InvoiceStatus,
    pub issue_date: i64,
    pub due_date: i64,
    pub subtotal: u64,
    pub tax_rate: Option<u64>,
    pub tax_amount: u64,
    pub total: u64,
    pub notes: Option<String>,
    pub payment_link: Option<String>,
    pub created_at: i64,
    pub updated_at: i64,
}

impl Invoice {
    pub fn copy(&self) -> (r: Invoice)
        ensures
            r == *self,
    {
        Invoice {
            id: self.id.clone(),
            invoice_number: self.invoice_number.clone(),
            client_id: self.client_id.clone(),
            status: self.status,
            issue_date: self.issue_date,
            due_date: self.due_date,
            subtotal: self.subtotal,
            tax_rate: self.tax_rate,
            tax_amount: self.tax_amount,
            total: self.total,
            notes: copy_opt(&self.notes),
            payment_link: copy_opt(&self.payment_link),
            created_at: self.created_at,
            updated_at: self.updated_at,
        }
    }
}

/// One billable line of an invoice. The quantity is in hundredths of a unit
/// (150 is one and a half), the unit price and the amount in cents.
#[derive(Clone, Debug, PartialEq, Eq)]
pub struct InvoiceLineItem {
    pub id: String,
    pub invoice_id: String,
    pub description: String,
    pub quantity: u64,
    pub unit_price: u64,
    /// `quantity * unit_price`, in cents, fixed when the item is created.
    pub amount: u64,
    pub sort_order: i32,
}

impl InvoiceLineItem {
    pub fn copy(&self) -> (r: InvoiceLineItem)
        ensures
            r == *self,
    {
        InvoiceLineItem {
            id: self.id.clone(),
            invoice_id: self.invoice_id.clone(),
            description: self.description.clone(),
            quantity: self.quantity,
            unit_price: self.unit_price,
            amount: self.amount,
            sort_order: self.sort_order,
        }
    }
}

/// Reading a stored status name back gives the status that was written.
pub proof fn lemma_project_status_round_trip(st: ProjectStatus)
    ensures
        forall|other: ProjectStatus| other.text() == st.text() ==> other == st,
{
    reveal_strlit("active");
    reveal_strlit("completed");
    reveal_strlit("archived");
    reveal_strlit("on_hold");
    assert forall|other: ProjectStatus| other.text() == st.text() implies other == st by {
        assert(other.text().len() == st.text().len());
    }
}

/// Reading a stored status name back gives the status that was written.
pub proof fn lemma_invoice_status_round_trip(st: InvoiceStatus)
    ensures
        forall|other: InvoiceStatus| other.text() == st.text() ==> other == st,
{
    reveal_strlit("draft");
    reveal_strlit("sent");
    reveal_strlit("paid");
    reveal_strlit("overdue");
    reveal_strlit("cancelled");
    assert forall|other: InvoiceStatus| other.text() == st.text() implies other == st by {
        assert(other.text().len() == st.text().len());
        assert(other.text()[0] == st.text()[0]);
    }
}

} // verus!
