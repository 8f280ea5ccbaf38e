use vstd::prelude::*;

use crate::ambient::{current_timestamp, new_record_id};
use crate::models::{Invoice, InvoiceLineItem, InvoiceStatus};
use crate::numbering::{generate_invoice_number, next_number};
use crate::text::str_eq;

verus! {

/// `n / d` rounded to the nearest whole number, halves rounded up.
pub open spec fn round_div(n: nat, d: nat) -> nat
    recommends
        d > 0,
{
    (n + d / 2) / d
}

/// The amount in cents of `quantity` hundredths of a unit at `unit_price`
/// cents each.
pub open spec fn line_amount(quantity: nat, unit_price: nat) -> nat {
    round_div(quantity * unit_price, 100)
}

/// The sum of the amounts of `items`.
pub open spec fn sum_amounts(items: Seq<InvoiceLineItem>) -> nat
    decreases items.len(),
{
    if items.len() == 0 {
        0
    } else {
        sum_amounts(items.drop_last()) + items.last().amount as nat
    }
}

/// The tax on `subtotal` at `rate` hundredths of a percent; none without a
/// rate.
pub open spec fn tax_for(subtotal: nat, rate: Option<u64>) -> nat {
    match rate {
        Some(r) => round_div(subtotal * (r as nat), 10000),
        None => 0,
    }
}

/// Whether the totals derived from `subtotal` can be stored.
pub open spec fn totals_fit(subtotal: nat, rate: Option<u64>) -> bool {
    subtotal + tax_for(subtotal, rate) <= u64::MAX
}

/// Whether the derived fields of `inv` agree with `items`.
pub open spec fn totals_consistent(inv: Invoice, items: Seq<InvoiceLineItem>) -> bool {
    &&& inv.subtotal == sum_amounts(items)
    &&& inv.tax_amount == tax_for(inv.subtotal as nat, inv.tax_rate)
    &&& inv.total == inv.subtotal + inv.tax_amount
}

/// `inv` with its totals derived afresh from `items`, touched at `now`.
pub open spec fn with_totals(inv: Invoice, items: Seq<InvoiceLineItem>, now: i64) -> Invoice {
    let sub = sum_amounts(items);
    let tax = tax_for(sub, inv.tax_rate);
    Invoice { subtotal: sub as u64, tax_amount: tax as u64, total: (sub + tax) as u64, updated_at: now, ..inv }
}

/// `items` without those whose identifier is `id`, in their order.
pub open spec fn without_id(items: Seq<InvoiceLineItem>, id: Seq<char>) -> Seq<InvoiceLineItem>
    decreases items.len(),
{
    if items.len() == 0 {
        items
    } else {
        let rest = without_id(items.drop_last(), id);
        if items.last().id@ == id {
            rest
        } else {
            rest.push(items.last())
        }
    }
}

/// An invoice together with the line items it owns.
pub struct InvoiceLedger {
    pub invoice: Invoice,
    pub items: Vec<InvoiceLineItem>,
}

impl InvoiceLedger {
    /// The invoice's derived fields agree with its line items.
    pub open spec fn wf(&self) -> bool {
        totals_consistent(self.invoice, self.items@)
    }
}

proof fn lemma_prefix_sum_le(s: Seq<InvoiceLineItem>, i: int)
    requires
        0 <= i <= s.len(),
    ensures
        sum_amounts(s.take(i)) <= sum_amounts(s),
    decreases s.len(),
{
    if i < s.len() {
        lemma_prefix_sum_le(s.drop_last(), i);
        assert(s.drop_last().take(i) == s.take(i));
    } else {
        assert(s.take(i) == s);
    }
}

proof fn lemma_tax_monotone(a: nat, b: nat, rate: Option<u64>)
    requires
        a <= b,
    ensures
        tax_for(a, rate) <= tax_for(b, rate),
{
    if let Some(r) = rate {
        let r = r as nat;
        assert(a * r <= b * r) by (nonlinear_arith)
            requires
                a <= b,
        ;
        vstd::arithmetic::div_mod::lemma_div_is_ordered(
            (a * r + 5000) as int,
            (b * r + 5000) as int,
            10000,
        );
    }
}

proof fn lemma_without_id_sum_le(s: Seq<InvoiceLineItem>, id: Seq<char>)
    ensures
        sum_amounts(without_id(s, id)) <= sum_amounts(s),
    decreases s.len(),
{
    if s.len() > 0 {
        lemma_without_id_sum_le(s.drop_last(), id);
        let rest = without_id(s.drop_last(), id);
        if s.last().id@ != id {
            assert(rest.push(s.last()).drop_last() == rest);
        }
    }
}

proof fn lemma_without_absent_id(s: Seq<InvoiceLineItem>, id: Seq<char>)
    requires
        forall|i: int| 0 <= i < s.len() ==> (#[trigger] s[i]).id@ != id,
    ensures
        without_id(s, id) == s,
    decreases s.len(),
{
    if s.len() > 0 {
        lemma_without_absent_id(s.drop_last(), id);
        assert(s.drop_last().push(s.last()) == s);
    }
}

/// Deriving the totals is idempotent: doing it a second time, with the line
/// items unchanged, gives the subtotal, tax and total of the first time.
pub proof fn lemma_totals_idempotent(inv: Invoice, items: Seq<InvoiceLineItem>, t1: i64, t2: i64)
    requires
        totals_fit(sum_amounts(items), inv.tax_rate),
    ensures
        ({
            let once = with_totals(inv, items, t1);
            let twice = with_totals(once, items, t2);
            &&& twice.subtotal == once.subtotal
            &&& twice.tax_amount == once.tax_amount
            &&& twice.total == once.total
            &&& totals_consistent(once, items)
            &&& totals_consistent(twice, items)
        }),
{
}

/// Adding a line item and then deleting it by its identifier leaves the
/// line items, and so the derived totals, as they were before the addition;
/// from no line items that is a subtotal, tax and total of zero.
pub proof fn lemma_add_then_delete(
    inv: Invoice,
    items: Seq<InvoiceLineItem>,
    item: InvoiceLineItem,
    t1: i64,
    t2: i64,
)
    requires
        forall|i: int| 0 <= i < items.len() ==> (#[trigger] items[i]).id@ != item.id@,
    ensures
        without_id(items.push(item), item.id@) == items,
        with_totals(with_totals(inv, items.push(item), t1), items, t2) == with_totals(inv, items, t2),
        items.len() == 0 ==> {
            let back = with_totals(inv, without_id(items.push(item), item.id@), t2);
            &&& back.subtotal == 0
            &&& back.tax_amount == 0
            &&& back.total == 0
        },
{
    lemma_without_absent_id(items, item.id@);
    assert(items.push(item).drop_last() == items);
    if items.len() == 0 {
        assert(sum_amounts(items) == 0);
        if let Some(r) = inv.tax_rate {
            assert(0nat * (r as nat) == 0) by (nonlinear_arith);
        }
    }
}

/// The amount in cents of `quantity` hundredths of a unit at `unit_price`.
pub fn line_amount_of(quantity: u64, unit_price: u64) -> (r: u64)
    requires
        line_amount(quantity as nat, unit_price as nat) <= u64::MAX,
    ensures
        r == line_amount(quantity as nat, unit_price as nat),
{
    let q = quantity as u128;
    let p = unit_price as u128;
    assert(q * p <= 0xffff_ffff_ffff_ffffu128 * 0xffff_ffff_ffff_ffffu128) by (nonlinear_arith)
        requires
            q <= 0xffff_ffff_ffff_ffffu128,
            p <= 0xffff_ffff_ffff_ffffu128,
    ;
    let prod = q * p;
    ((prod + 50) / 100) as u64
}

/// The tax on `subtotal` at `rate`.
pub fn tax_amount_of(subtotal: u64, rate: Option<u64>) -> (r: u64)
    requires
        tax_for(subtotal as nat, rate) <= u64::MAX,
    ensures
        r == tax_for(subtotal as nat, rate),
{
    match rate {
        None => 0,
        Some(rt) => {
            let s = subtotal as u128;
            let p = rt as u128;
            assert(s * p <= 0xffff_ffff_ffff_ffffu128 * 0xffff_ffff_ffff_ffffu128) by (nonlinear_arith)
                requires
                    s <= 0xffff_ffff_ffff_ffffu128,
                    p <= 0xffff_ffff_ffff_ffffu128,
            ;
            let prod = s * p;
            ((prod + 5000) / 10000) as u64
        },
    }
}

/// The sum of the amounts of `items`.
pub fn sum_line_amounts(items: &Vec<InvoiceLineItem>) -> (r: u64)
    requires
        sum_amounts(items@) <= u64::MAX,
    ensures
        r == sum_amounts(items@),
{
    let mut acc: u64 = 0;
    let mut i: usize = 0;
    while i < items.len()
        invariant
            i <= items@.len(),
            acc == sum_amounts(items@.take(i as int)),
            sum_amounts(items@) <= u64::MAX,
        decreases items@.len() - i,
    {
        proof {
            assert(items@.take(i + 1).drop_last() == items@.take(i as int));
            lemma_prefix_sum_le(items@, i + 1);
        }
        acc = acc + items[i].amount;
        i = i + 1;
    }
    assert(items@.take(i as int) == items@);
    acc
}

/// The sum of the amounts of `items`, where it fits in 64 bits.
pub fn checked_sum_amounts(items: &Vec<InvoiceLineItem>) -> (r: Option<u64>)
    ensures
        match r {
            Some(v) => v == sum_amounts(items@),
            None => sum_amounts(items@) > u64::MAX,
        },
{
    let mut acc: u64 = 0;
    let mut i: usize = 0;
    while i < items.len()
        invariant
            i <= items@.len(),
            acc == sum_amounts(items@.take(i as int)),
        decreases items@.len() - i,
    {
        proof {
            assert(items@.take(i + 1).drop_last() == items@.take(i as int));
        }
        if acc > u64::MAX - items[i].amount {
            proof {
                lemma_prefix_sum_le(items@, i + 1);
            }
            return None;
        }
        acc = acc + items[i].amount;
        i = i + 1;
    }
    assert(items@.take(i as int) == items@);
    Some(acc)
}

/// Whether the totals derived from `subtotal` at `rate` can be stored.
pub fn totals_fit_for(subtotal: u64, rate: Option<u64>) -> (r: bool)
    ensures
        r == totals_fit(subtotal as nat, rate),
{
    let tax: u128 = match rate {
        None => 0,
        Some(rt) => {
            let s = subtotal as u128;
            let p = rt as u128;
            assert(s * p <= 0xffff_ffff_ffff_ffffu128 * 0xffff_ffff_ffff_ffffu128) by (nonlinear_arith)
                requires
                    s <= 0xffff_ffff_ffff_ffffu128,
                    p <= 0xffff_ffff_ffff_ffffu128,
            ;
            (s * p + 5000) / 10000
        },
    };
    subtotal as u128 + tax <= u64::MAX as u128
}

/// Whether the invoice's totals can be derived from its present line items:
/// the condition under which they may be recomputed or an item deleted.
pub fn can_recompute(ledger: &InvoiceLedger) -> (r: bool)
    ensures
        r == totals_fit(sum_amounts(ledger.items@), ledger.invoice.tax_rate),
{
    match checked_sum_amounts(&ledger.items) {
        None => false,
        Some(sub) => totals_fit_for(sub, ledger.invoice.tax_rate),
    }
}

/// Whether a line item of `quantity` at `unit_price` can be added: its
/// amount, and the totals with it, can be stored.
pub fn can_add_line_item(ledger: &InvoiceLedger, quantity: u64, unit_price: u64) -> (r: bool)
    ensures
        r == (line_amount(quantity as nat, unit_price as nat) <= u64::MAX && totals_fit(
            sum_amounts(ledger.items@) + line_amount(quantity as nat, unit_price as nat),
            ledger.invoice.tax_rate,
        )),
{
    let q = quantity as u128;
    let p = unit_price as u128;
    assert(q * p <= 0xffff_ffff_ffff_ffffu128 * 0xffff_ffff_ffff_ffffu128) by (nonlinear_arith)
        requires
            q <= 0xffff_ffff_ffff_ffffu128,
            p <= 0xffff_ffff_ffff_ffffu128,
    ;
    let amount = (q * p + 50) / 100;
    if amount > u64::MAX as u128 {
        return false;
    }
    match checked_sum_amounts(&ledger.items) {
        None => false,
        Some(sub) => {
            if sub as u128 + amount > u64::MAX as u128 {
                false
            } else {
                totals_fit_for((sub as u128 + amount) as u64, ledger.invoice.tax_rate)
            }
        },
    }
}

/// Derives the invoice's subtotal, tax and total afresh from its line items
/// and returns the refreshed invoice.
pub fn update_invoice_totals_at(ledger: &mut InvoiceLedger, now: i64) -> (r: Invoice)
    requires
        totals_fit(sum_amounts(old(ledger).items@), old(ledger).invoice.tax_rate),
    ensures
        final(ledger).items == old(ledger).items,
        final(ledger).invoice == with_totals(old(ledger).invoice, old(ledger).items@, now),
        final(ledger).wf(),
        r == final(ledger).invoice,
{
    let sub = sum_line_amounts(&ledger.items);
    let tax = tax_amount_of(sub, ledger.invoice.tax_rate);
    ledger.invoice.subtotal = sub;
    ledger.invoice.tax_amount = tax;
    ledger.invoice.total = sub + tax;
    ledger.invoice.updated_at = now;
    ledger.invoice.copy()
}

/// Adds a line item to the invoice, its amount fixed from quantity and unit
/// price, then derives the invoice's totals afresh. Returns the new item.
pub fn add_line_item_at(
    ledger: &mut InvoiceLedger,
    id: String,
    description: String,
    quantity: u64,
    unit_price: u64,
    sort_order: i32,
    now: i64,
) -> (r: InvoiceLineItem)
    requires
        line_amount(quantity as nat, unit_price as nat) <= u64::MAX,
        totals_fit(
            sum_amounts(old(ledger).items@) + line_amount(quantity as nat, unit_price as nat),
            old(ledger).invoice.tax_rate,
        ),
    ensures
        r == (InvoiceLineItem {
            id,
            invoice_id: old(ledger).invoice.id,
            description,
            quantity,
            unit_price,
            amount: line_amount(quantity as nat, unit_price as nat) as u64,
            sort_order,
        }),
        final(ledger).items@ == old(ledger).items@.push(r),
        final(ledger).invoice == with_totals(old(ledger).invoice, final(ledger).items@, now),
        final(ledger).wf(),
{
    let amount = line_amount_of(quantity, unit_price);
    let item = InvoiceLineItem {
        id,
        invoice_id: ledger.invoice.id.clone(),
        description,
        quantity,
        unit_price,
        amount,
        sort_order,
    };
    ledger.items.push(item.copy());
    proof {
        assert(ledger.items@.drop_last() == old(ledger).items@);
    }
    update_invoice_totals_at(ledger, now);
    item
}

/// Removes the line items whose identifier is `id`, then derives the
/// invoice's totals afresh. An identifier that matches no item removes
/// nothing and is not an error.
pub fn delete_line_item_at(ledger: &mut InvoiceLedger, id: &str, now: i64)
    requires
        totals_fit(sum_amounts(old(ledger).items@), old(ledger).invoice.tax_rate),
    ensures
        final(ledger).items@ == without_id(old(ledger).items@, id@),
        final(ledger).invoice == with_totals(old(ledger).invoice, final(ledger).items@, now),
        final(ledger).wf(),
{
    let mut kept: Vec<InvoiceLineItem> = Vec::new();
    let mut i: usize = 0;
    while i < ledger.items.len()
        invariant
            i <= ledger.items@.len(),
            ledger.items == old(ledger).items,
            ledger.invoice == old(ledger).invoice,
            kept@ == without_id(ledger.items@.take(i as int), id@),
        decreases ledger.items@.len() - i,
    {
        proof {
            assert(ledger.items@.take(i + 1).drop_last() == ledger.items@.take(i as int));
        }
        if !str_eq(ledger.items[i].id.as_str(), id) {
            kept.push(ledger.items[i].copy());
        }
        i = i + 1;
    }
    proof {
        assert(ledger.items@.take(i as int) == ledger.items@);
        lemma_without_id_sum_le(old(ledger).items@, id@);
        lemma_tax_monotone(
            sum_amounts(kept@),
            sum_amounts(old(ledger).items@),
            old(ledger).invoice.tax_rate,
        );
        assert(totals_fit(sum_amounts(kept@), old(ledger).invoice.tax_rate));
    }
    ledger.items = kept;
    update_invoice_totals_at(ledger, now);
}

/// A new draft invoice under `id` and `invoice_number`, made at `now`,
/// with no line items and totals of zero.
pub fn new_invoice(
    id: String,
    invoice_number: String,
    client_id: String,
    issue_date: i64,
    due_date: i64,
    notes: Option<String>,
    tax_rate: Option<u64>,
    now: i64,
) -> (r: InvoiceLedger)
    ensures
        r.invoice == (Invoice {
            id,
            invoice_number,
            client_id,
            status: InvoiceStatus::Draft,
            issue_date,
            due_date,
            subtotal: 0,
            tax_rate,
            tax_amount: 0,
            total: 0,
            notes,
            payment_link: None,
            created_at: now,
            updated_at: now,
        }),
        r.items@.len() == 0,
        r.wf(),
{
    let r = InvoiceLedger {
        invoice: Invoice {
            id,
            invoice_number,
            client_id,
            status: InvoiceStatus::Draft,
            issue_date,
            due_date,
            subtotal: 0,
            tax_rate,
            tax_amount: 0,
            total: 0,
            notes,
            payment_link: None,
            created_at: now,
            updated_at: now,
        },
        items: Vec::new(),
    };
    proof {
        if let Some(rt) = tax_rate {
            assert(0nat * (rt as nat) == 0) by (nonlinear_arith);
        }
    }
    r
}

/// A new draft invoice for `client_id`, numbered after the existing invoice
/// numbers `numbers`, under a fresh identifier and made now.
pub fn create_invoice(
    numbers: &Vec<String>,
    client_id: String,
    issue_date: i64,
    due_date: i64,
    notes: Option<String>,
    tax_rate: Option<u64>,
) -> (r: InvoiceLedger)
    ensures
        exists|year: Seq<char>| r.invoice.invoice_number@ == #[trigger] next_number(year, numbers@),
        r.invoice.client_id == client_id,
        r.invoice.status == InvoiceStatus::Draft,
        r.invoice.issue_date == issue_date,
        r.invoice.due_date == due_date,
        r.invoice.notes == notes,
        r.invoice.tax_rate == tax_rate,
        r.invoice.payment_link.is_none(),
        r.invoice.total == 0,
        r.items@.len() == 0,
        r.wf(),
{
    let id = new_record_id();
    let number = generate_invoice_number(numbers);
    let now = current_timestamp();
    new_invoice(id, number, client_id, issue_date, due_date, notes, tax_rate, now)
}

/// Moves the invoice to `status`, touched at `now`.
pub fn update_invoice_status_at(invoice: &mut Invoice, status: InvoiceStatus, now: i64)
    ensures
        *final(invoice) == (Invoice { status, updated_at: now, ..*old(invoice) }),
{
    invoice.status = status;
    invoice.updated_at = now;
}

/// Attaches a payment link to the invoice, touched at `now`.
pub fn set_payment_link_at(invoice: &mut Invoice, link: String, now: i64)
    ensures
        *final(invoice) == (Invoice { payment_link: Some(link), updated_at: now, ..*old(invoice) }),
{
    invoice.payment_link = Some(link);
    invoice.updated_at = now;
}

/// Derives the invoice's totals afresh from its line items, touched now.
pub fn update_invoice_totals(ledger: &mut InvoiceLedger) -> (r: Invoice)
    requires
        totals_fit(sum_amounts(old(ledger).items@), old(ledger).invoice.tax_rate),
    ensures
        final(ledger).items == old(ledger).items,
        exists|now: i64|
            final(ledger).invoice == #[trigger] with_totals(
                old(ledger).invoice,
                old(ledger).items@,
                now,
            ),
        final(ledger).wf(),
        r == final(ledger).invoice,
{
    let now = current_timestamp();
    update_invoice_totals_at(ledger, now)
}

/// Adds a line item under a fresh identifier, then derives the invoice's
/// totals afresh, touched now. Returns the new item.
pub fn add_line_item(
    ledger: &mut InvoiceLedger,
    description: String,
    quantity: u64,
    unit_price: u64,
    sort_order: i32,
) -> (r: InvoiceLineItem)
    requires
        line_amount(quantity as nat, unit_price as nat) <= u64::MAX,
        totals_fit(
            sum_amounts(old(ledger).items@) + line_amount(quantity as nat, unit_price as nat),
            old(ledger).invoice.tax_rate,
        ),
    ensures
        r.invoice_id == old(ledger).invoice.id,
        r.description == description,
        r.quantity == quantity,
        r.unit_price == unit_price,
        r.amount == line_amount(quantity as nat, unit_price as nat),
        r.sort_order == sort_order,
        final(ledger).items@ == old(ledger).items@.push(r),
        exists|now: i64|
            final(ledger).invoice == #[trigger] with_totals(
                old(ledger).invoice,
                final(ledger).items@,
                now,
            ),
        final(ledger).wf(),
{
    let id = new_record_id();
    let now = current_timestamp();
    add_line_item_at(ledger, id, description, quantity, unit_price, sort_order, now)
}

/// Removes the line items whose identifier is `id`, then derives the
/// invoice's totals afresh, touched now.
pub fn delete_line_item(ledger: &mut InvoiceLedger, id: &str)
    requires
        totals_fit(sum_amounts(old(ledger).items@), old(ledger).invoice.tax_rate),
    ensures
        final(ledger).items@ == without_id(old(ledger).items@, id@),
        exists|now: i64|
            final(ledger).invoice == #[trigger] with_totals(
                old(ledger).invoice,
                final(ledger).items@,
                now,
            ),
        final(ledger).wf(),
{
    let now = current_timestamp();
    delete_line_item_at(ledger, id, now)
}

/// Moves the invoice to `status`, touched now.
pub fn update_invoice_status(invoice: &mut Invoice, status: InvoiceStatus)
    ensures
        *final(invoice) == (Invoice {
            status,
            updated_at: final(invoice).updated_at,
            ..*old(invoice)
        }),
{
    let now = current_timestamp();
    update_invoice_status_at(invoice, status, now)
}

/// Attaches a payment link to the invoice, touched now.
pub fn set_payment_link(invoice: &mut Invoice, link: String)
    ensures
        *final(invoice) == (Invoice {
            payment_link: Some(link),
            updated_at: final(invoice).updated_at,
            ..*old(invoice)
        }),
{
    let now = current_timestamp();
    set_payment_link_at(invoice, link, now)
}

} // verus!
