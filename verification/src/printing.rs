//! Receipts and shift reports, laid out for an ESC/POS printer.
//!
//! Each document is built here as a list of [`PrintCommand`]s, exactly as the printer's
//! builder is driven: text lines, two-column lines, rules, emphasis, barcodes and the cut.
//! Turning the list into the printer's bytes, and writing them to the device or to the
//! console, happens outside the library.
use crate::dec::{decimal_rounded, decimal_text, fits, rounded, sum_all, Dec};
use crate::models::transaction::{
    change_of, item_quantities, Payment, PaymentMethod, Transaction, TransactionItem,
};
use crate::text::{append_int, append_str, int_text, nat_text, nat_to_text, owned, str_eq};
use crate::time::formatted_instant;
use vstd::prelude::*;

verus! {

/// The printer's character table for Arabic text (Windows-1256).
pub const ARABIC_CODE_PAGE: u8 = 23u8;

/// The size of the QR code on a receipt.
pub const RECEIPT_QR_SIZE: u8 = 5u8;

/// One step of a printed document.
#[derive(Debug, Clone, PartialEq, Eq)]
pub enum PrintCommand {
    /// Resets the printer.
    Init,
    /// Selects a character table.
    CodePage(u8),
    /// Centres the following lines.
    AlignCenter,
    /// Aligns the following lines to the left.
    AlignLeft,
    /// Double width and height.
    DoubleSize,
    /// Normal width and height.
    Normal,
    /// Bold on.
    BoldOn,
    /// Bold off.
    BoldOff,
    /// A line of text.
    Line(String),
    /// A line with its left text at the left edge and its right text at the right edge of a
    /// paper of the given width.
    TwoColumns(String, String, usize),
    /// A single rule across a paper of the given width.
    Rule(usize),
    /// A double rule across a paper of the given width.
    DoubleRule(usize),
    /// An empty line.
    Newline,
    /// A Code 128 barcode.
    Barcode128(String),
    /// A QR code of the given size.
    QrCode(String, u8),
    /// Feeds the given number of lines.
    Feed(u8),
    /// Cuts the paper.
    Cut,
    /// Kicks the cash drawer open.
    OpenDrawer,
}

/// A [`PrintCommand`] with its texts as character sequences.
pub enum Printed {
    Init,
    CodePage(u8),
    AlignCenter,
    AlignLeft,
    DoubleSize,
    Normal,
    BoldOn,
    BoldOff,
    Line(Seq<char>),
    TwoColumns(Seq<char>, Seq<char>, usize),
    Rule(usize),
    DoubleRule(usize),
    Newline,
    Barcode128(Seq<char>),
    QrCode(Seq<char>, u8),
    Feed(u8),
    Cut,
    OpenDrawer,
}

impl View for PrintCommand {
    type V = Printed;

    open spec fn view(&self) -> Printed {
        match self {
            PrintCommand::Init => Printed::Init,
            PrintCommand::CodePage(n) => Printed::CodePage(*n),
            PrintCommand::AlignCenter => Printed::AlignCenter,
            PrintCommand::AlignLeft => Printed::AlignLeft,
            PrintCommand::DoubleSize => Printed::DoubleSize,
            PrintCommand::Normal => Printed::Normal,
            PrintCommand::BoldOn => Printed::BoldOn,
            PrintCommand::BoldOff => Printed::BoldOff,
            PrintCommand::Line(s) => Printed::Line(s@),
            PrintCommand::TwoColumns(l, r, w) => Printed::TwoColumns(l@, r@, *w),
            PrintCommand::Rule(w) => Printed::Rule(*w),
            PrintCommand::DoubleRule(w) => Printed::DoubleRule(*w),
            PrintCommand::Newline => Printed::Newline,
            PrintCommand::Barcode128(s) => Printed::Barcode128(s@),
            PrintCommand::QrCode(s, n) => Printed::QrCode(s@, *n),
            PrintCommand::Feed(n) => Printed::Feed(*n),
            PrintCommand::Cut => Printed::Cut,
            PrintCommand::OpenDrawer => Printed::OpenDrawer,
        }
    }
}

/// The commands of a document, with their texts as character sequences.
pub open spec fn printed(cmds: Seq<PrintCommand>) -> Seq<Printed> {
    cmds.map_values(|c: PrintCommand| c@)
}

/// The Arabic text in an Arabic document, the English one otherwise.
pub open spec fn tr(arabic_doc: bool, arabic: Seq<char>, english: Seq<char>) -> Seq<char> {
    if arabic_doc {
        arabic
    } else {
        english
    }
}

/// An amount as a document shows it: rounded to three places.
pub open spec fn money_text(d: Dec) -> Seq<char> {
    decimal_text(decimal_rounded(d, 3))
}

/// The text held, or `fallback` when there is none.
pub open spec fn text_or(o: Option<String>, fallback: Seq<char>) -> Seq<char> {
    match o {
        Some(s) => s@,
        None => fallback,
    }
}

/// Appends one command.
fn emit(out: &mut Vec<PrintCommand>, c: PrintCommand)
    ensures
        printed(final(out)@) == printed(old(out)@).push(c@),
{
    out.push(c);
    assert(printed(final(out)@) =~= printed(old(out)@).push(c@));
}

/// Chooses the Arabic or the English text.
fn pick(arabic_doc: bool, arabic: &'static str, english: &'static str) -> (s: &'static str)
    ensures
        s@ == tr(arabic_doc, arabic@, english@),
{
    if arabic_doc {
        arabic
    } else {
        english
    }
}

/// `a` followed by `b`.
fn cat(a: &str, b: &str) -> (r: String)
    ensures
        r@ == a@ + b@,
{
    let mut s = owned(a);
    append_str(&mut s, b);
    s
}

/// An amount rounded to three places, written out.
fn money(d: Dec) -> (s: String)
    ensures
        s@ == money_text(d),
{
    rounded(d, 3).text()
}

/// A line of text.
fn line(out: &mut Vec<PrintCommand>, s: &str)
    ensures
        printed(final(out)@) == printed(old(out)@).push(Printed::Line(s@)),
{
    emit(out, PrintCommand::Line(owned(s)));
}

/// A two-column line.
fn two_col(out: &mut Vec<PrintCommand>, left: &str, right: &str, w: usize)
    ensures
        printed(final(out)@) == printed(old(out)@).push(Printed::TwoColumns(left@, right@, w)),
{
    emit(out, PrintCommand::TwoColumns(owned(left), owned(right), w));
}

// ============================================================================
// Configuration
// ============================================================================

/// How and where documents are printed, and the store's details on them.
#[derive(Clone, Debug)]
pub struct PrinterConfig {
    /// The printer device; `None` prints to the console.
    pub printer_path: Option<String>,
    /// The paper width in characters (42 for 80mm paper, 32 for 58mm).
    pub paper_width: usize,
    /// The store's name in English.
    pub store_name: String,
    /// The store's name in Arabic.
    pub store_name_ar: Option<String>,
    /// The store's address.
    pub store_address: String,
    /// The store's address in Arabic.
    pub store_address_ar: Option<String>,
    /// The store's phone number.
    pub store_phone: Option<String>,
    /// The store's tax registration number.
    pub store_tax_id: Option<String>,
    /// The terminal's identifier.
    pub terminal_id: String,
    /// Whether receipts carry a QR code.
    pub print_qr_code: bool,
    /// Whether receipts carry a barcode of their number.
    pub print_barcode: bool,
    /// Whether a customer copy is printed.
    pub print_customer_copy: bool,
    /// The footer in English.
    pub footer_text: String,
    /// The footer in Arabic.
    pub footer_text_ar: Option<String>,
}

impl Default for PrinterConfig {
    fn default() -> (c: PrinterConfig)
        ensures
            c.printer_path is None,
            c.paper_width == 42,
            c.store_name@ == "E2Manage POS"@,
            c.store_name_ar matches Some(n) && n@ == "نقطة البيع"@,
            c.store_address@ == Seq::<char>::empty(),
            c.store_address_ar is None,
            c.store_phone is None,
            c.store_tax_id is None,
            c.terminal_id@ == "TERM-001"@,
            !c.print_qr_code,
            c.print_barcode,
            !c.print_customer_copy,
            c.footer_text@ == "Thank you for your visit!"@,
            c.footer_text_ar matches Some(f) && f@ == "شكراً لزيارتكم!"@,
    {
        PrinterConfig {
            printer_path: None,
            paper_width: 42,
            store_name: owned("E2Manage POS"),
            store_name_ar: Some(owned("نقطة البيع")),
            store_address: String::new(),
            store_address_ar: None,
            store_phone: None,
            store_tax_id: None,
            terminal_id: owned("TERM-001"),
            print_qr_code: false,
            print_barcode: true,
            print_customer_copy: false,
            footer_text: owned("Thank you for your visit!"),
            footer_text_ar: Some(owned("شكراً لزيارتكم!")),
        }
    }
}

// ============================================================================
// Receipt
// ============================================================================

/// The store's name for a document.
pub open spec fn store_name_text(c: PrinterConfig, ar: bool) -> Seq<char> {
    if ar {
        text_or(c.store_name_ar, c.store_name@)
    } else {
        c.store_name@
    }
}

/// The top of a receipt: the store's name, large and bold.
pub open spec fn receipt_title(c: PrinterConfig, ar: bool) -> Seq<Printed> {
    seq![Printed::Init] + (if ar {
        seq![Printed::CodePage(ARABIC_CODE_PAGE)]
    } else {
        seq![]
    }) + seq![
        Printed::AlignCenter,
        Printed::DoubleSize,
        Printed::BoldOn,
        Printed::Line(store_name_text(c, ar)),
        Printed::Normal,
        Printed::BoldOff,
    ]
}

/// The store's address, phone and tax number, as far as they are configured.
pub open spec fn store_details(c: PrinterConfig, ar: bool) -> Seq<Printed> {
    (if c.store_address@.len() > 0 {
        seq![Printed::Line(if ar { text_or(c.store_address_ar, c.store_address@) } else { c.store_address@ })]
    } else {
        seq![]
    }) + (match c.store_phone {
        Some(p) => seq![Printed::Line(p@)],
        None => seq![],
    }) + (match c.store_tax_id {
        Some(t) => seq![Printed::Line(tr(ar, "رقم الضريبي"@, "Tax ID"@) + ": "@ + t@)],
        None => seq![],
    }) + seq![Printed::Newline]
}

/// The opening of a receipt: the store's name, address, phone and tax number.
pub open spec fn receipt_header(c: PrinterConfig, ar: bool) -> Seq<Printed> {
    receipt_title(c, ar) + store_details(c, ar)
}

/// Writes the top of a receipt.
fn write_receipt_title(out: &mut Vec<PrintCommand>, c: &PrinterConfig, ar: bool)
    ensures
        printed(final(out)@) == printed(old(out)@) + receipt_title(*c, ar),
{
    let ghost start = printed(out@);
    emit(out, PrintCommand::Init);
    if ar {
        emit(out, PrintCommand::CodePage(ARABIC_CODE_PAGE));
    }
    emit(out, PrintCommand::AlignCenter);
    emit(out, PrintCommand::DoubleSize);
    emit(out, PrintCommand::BoldOn);
    if ar {
        match &c.store_name_ar {
            Some(n) => line(out, n.as_str()),
            None => line(out, c.store_name.as_str()),
        }
    } else {
        line(out, c.store_name.as_str());
    }
    emit(out, PrintCommand::Normal);
    emit(out, PrintCommand::BoldOff);
    assert(printed(out@) =~= start + receipt_title(*c, ar));
}

/// Writes the store's address, phone and tax number.
fn write_store_details(out: &mut Vec<PrintCommand>, c: &PrinterConfig, ar: bool)
    ensures
        printed(final(out)@) == printed(old(out)@) + store_details(*c, ar),
{
    let ghost start = printed(out@);
    if c.store_address.unicode_len() > 0 {
        if ar {
            match &c.store_address_ar {
                Some(a) => line(out, a.as_str()),
                None => line(out, c.store_address.as_str()),
            }
        } else {
            line(out, c.store_address.as_str());
        }
    }
    match &c.store_phone {
        Some(p) => line(out, p.as_str()),
        None => {},
    }
    match &c.store_tax_id {
        Some(t) => {
            let mut s = cat(pick(ar, "رقم الضريبي", "Tax ID"), ": ");
            append_str(&mut s, t.as_str());
            line(out, s.as_str());
        },
        None => {},
    }
    emit(out, PrintCommand::Newline);
    assert(printed(out@) =~= start + store_details(*c, ar));
}

/// Writes the opening of a receipt.
fn write_receipt_header(out: &mut Vec<PrintCommand>, c: &PrinterConfig, ar: bool)
    ensures
        printed(final(out)@) == printed(old(out)@) + receipt_header(*c, ar),
{
    let ghost start = printed(out@);
    write_receipt_title(out, c, ar);
    write_store_details(out, c, ar);
    assert(printed(out@) =~= start + receipt_header(*c, ar));
}

/// The pattern of the date and time on a receipt.
pub const RECEIPT_DATE_PATTERN: &'static str = "%Y-%m-%d %H:%M";

/// The number a receipt shows: its receipt number, else the transaction's number.
pub open spec fn receipt_number_text(txn: Transaction) -> Seq<char> {
    text_or(txn.receipt_number, txn.transaction_number@)
}

/// The date and time a receipt shows; empty where `chrono` cannot write the instant.
pub open spec fn receipt_date_text(txn: Transaction) -> Seq<char> {
    match formatted_instant(txn.created_at, RECEIPT_DATE_PATTERN@) {
        Some(s) => s,
        None => seq![],
    }
}

/// The cashier a receipt shows: the recorded operator's name, else nothing.
pub open spec fn cashier_text(txn: Transaction) -> Seq<char> {
    match txn.operator_name {
        Some(n) => n.spec_str(),
        None => seq![],
    }
}

/// The receipt's number, date, cashier, terminal and customer, between two rules.
pub open spec fn receipt_info(txn: Transaction, ar: bool, w: usize) -> Seq<Printed> {
    seq![
        Printed::AlignLeft,
        Printed::Rule(w),
        Printed::TwoColumns(tr(ar, "رقم الفاتورة:"@, "Receipt No:"@), receipt_number_text(txn), w),
        Printed::TwoColumns(tr(ar, "التاريخ:"@, "Date:"@), receipt_date_text(txn), w),
        Printed::TwoColumns(tr(ar, "الكاشير:"@, "Cashier:"@), cashier_text(txn), w),
        Printed::TwoColumns(tr(ar, "الجهاز:"@, "Terminal:"@), txn.terminal_id@, w),
    ] + (match txn.customer_name {
        Some(n) => seq![Printed::TwoColumns(tr(ar, "العميل:"@, "Customer:"@), n@, w)],
        None => seq![],
    }) + seq![Printed::Rule(w)]
}

/// The number a receipt shows.
fn receipt_number(txn: &Transaction) -> (s: &str)
    ensures
        s@ == receipt_number_text(*txn),
{
    match &txn.receipt_number {
        Some(r) => r.as_str(),
        None => txn.transaction_number.as_str(),
    }
}

/// Writes the receipt's number, date, cashier, terminal and customer.
fn write_receipt_info(out: &mut Vec<PrintCommand>, txn: &Transaction, ar: bool, w: usize)
    ensures
        printed(final(out)@) == printed(old(out)@) + receipt_info(*txn, ar, w),
{
    let ghost start = printed(out@);
    emit(out, PrintCommand::AlignLeft);
    emit(out, PrintCommand::Rule(w));
    two_col(out, pick(ar, "رقم الفاتورة:", "Receipt No:"), receipt_number(txn), w);
    let date = match txn.created_at.format(RECEIPT_DATE_PATTERN) {
        Some(d) => d,
        None => String::new(),
    };
    two_col(out, pick(ar, "التاريخ:", "Date:"), date.as_str(), w);
    match &txn.operator_name {
        Some(n) => two_col(out, pick(ar, "الكاشير:", "Cashier:"), n.as_str(), w),
        None => {
            let empty = String::new();
            two_col(out, pick(ar, "الكاشير:", "Cashier:"), empty.as_str(), w);
        },
    }
    two_col(out, pick(ar, "الجهاز:", "Terminal:"), txn.terminal_id.as_str(), w);
    match &txn.customer_name {
        Some(n) => two_col(out, pick(ar, "العميل:", "Customer:"), n.as_str(), w),
        None => {},
    }
    emit(out, PrintCommand::Rule(w));
    assert(printed(out@) =~= start + receipt_info(*txn, ar, w));
}

/// The marker in front of a line's name for services, fees, labour, digital goods and
/// subscriptions; none for goods.
pub open spec fn type_prefix(product_type: Seq<char>, ar: bool) -> Seq<char> {
    if product_type == "SERVICE"@ {
        tr(ar, "[خدمة] "@, "[SVC] "@)
    } else if product_type == "FEE"@ {
        tr(ar, "[رسم] "@, "[FEE] "@)
    } else if product_type == "LABOR"@ {
        tr(ar, "[عمالة] "@, "[LBR] "@)
    } else if product_type == "DIGITAL"@ {
        tr(ar, "[رقمي] "@, "[DIG] "@)
    } else if product_type == "SUBSCRIPTION"@ {
        tr(ar, "[اشتراك] "@, "[SUB] "@)
    } else {
        seq![]
    }
}

/// A whole quantity as a whole number (zero where it does not fit an `i32`), any other
/// rounded to three places.
pub open spec fn quantity_text(q: Dec) -> Seq<char> {
    if q.spec_is_whole() {
        int_text(i32_or_zero(q))
    } else {
        money_text(q)
    }
}

/// The integer part of a decimal where it fits an `i32`, else zero.
pub open spec fn i32_or_zero(q: Dec) -> int {
    if i32::MIN <= q.spec_trunc() <= i32::MAX {
        q.spec_trunc()
    } else {
        0
    }
}

/// The line's name in the document's language, behind its type's marker.
pub open spec fn item_name_text(it: TransactionItem, ar: bool) -> Seq<char> {
    let name = if ar {
        text_or(it.product_name_ar, it.product_name@)
    } else {
        it.product_name@
    };
    let prefix = type_prefix(it.product_type@, ar);
    if prefix.len() == 0 {
        name
    } else {
        prefix + name
    }
}

/// A line of the receipt: its name; quantity times price against the line's total; and its
/// discount, when there is one.
pub open spec fn item_lines(it: TransactionItem, ar: bool, w: usize) -> Seq<Printed> {
    seq![
        Printed::Line(item_name_text(it, ar)),
        Printed::TwoColumns(
            "  "@ + quantity_text(it.quantity) + " x "@ + money_text(it.unit_price),
            money_text(it.line_total),
            w,
        ),
    ] + (if it.discount_amount.is_pos() {
        seq![Printed::TwoColumns(tr(ar, "    خصم"@, "    Discount"@), "-"@ + money_text(it.discount_amount), w)]
    } else {
        seq![]
    })
}

/// The lines of the receipt, in order.
pub open spec fn items_section(items: Seq<TransactionItem>, ar: bool, w: usize) -> Seq<Printed>
    decreases items.len(),
{
    if items.len() == 0 {
        seq![]
    } else {
        items_section(items.drop_last(), ar, w) + item_lines(items.last(), ar, w)
    }
}

/// The marker in front of a line's name.
fn item_type_prefix(product_type: &str, ar: bool) -> (s: &'static str)
    ensures
        s@ == type_prefix(product_type@, ar),
{
    proof {
        reveal_strlit("");
    }
    if str_eq(product_type, "SERVICE") {
        pick(ar, "[خدمة] ", "[SVC] ")
    } else if str_eq(product_type, "FEE") {
        pick(ar, "[رسم] ", "[FEE] ")
    } else if str_eq(product_type, "LABOR") {
        pick(ar, "[عمالة] ", "[LBR] ")
    } else if str_eq(product_type, "DIGITAL") {
        pick(ar, "[رقمي] ", "[DIG] ")
    } else if str_eq(product_type, "SUBSCRIPTION") {
        pick(ar, "[اشتراك] ", "[SUB] ")
    } else {
        ""
    }
}

/// A quantity as a receipt shows it.
fn quantity(q: Dec) -> (s: String)
    ensures
        s@ == quantity_text(q),
{
    if q.is_whole() {
        let n: i32 = match q.to_i32() {
            Some(n) => n,
            None => 0,
        };
        let mut s = String::new();
        append_int(&mut s, n as i64);
        proof {
            reveal_strlit("");
        }
        assert(s@ =~= int_text(n as int));
        s
    } else {
        money(q)
    }
}

/// Writes one line of the receipt.
fn write_item(out: &mut Vec<PrintCommand>, it: &TransactionItem, ar: bool, w: usize)
    ensures
        printed(final(out)@) == printed(old(out)@) + item_lines(*it, ar, w),
{
    let ghost start = printed(out@);
    let name: &str = if ar {
        match &it.product_name_ar {
            Some(a) => a.as_str(),
            None => it.product_name.as_str(),
        }
    } else {
        it.product_name.as_str()
    };
    let prefix = item_type_prefix(it.product_type.as_str(), ar);
    if prefix.unicode_len() == 0 {
        line(out, name);
    } else {
        let s = cat(prefix, name);
        line(out, s.as_str());
    }
    let mut left = cat("  ", quantity(it.quantity).as_str());
    append_str(&mut left, " x ");
    append_str(&mut left, money(it.unit_price).as_str());
    two_col(out, left.as_str(), money(it.line_total).as_str(), w);
    if it.discount_amount.is_positive() {
        let d = cat("-", money(it.discount_amount).as_str());
        two_col(out, pick(ar, "    خصم", "    Discount"), d.as_str(), w);
    }
    assert(printed(out@) =~= start + item_lines(*it, ar, w));
}

/// Writes the lines of the receipt.
fn write_items(out: &mut Vec<PrintCommand>, items: &Vec<TransactionItem>, ar: bool, w: usize)
    ensures
        printed(final(out)@) == printed(old(out)@) + items_section(items@, ar, w),
{
    let ghost start = printed(out@);
    let mut k: usize = 0;
    assert(items@.subrange(0, 0) =~= Seq::<TransactionItem>::empty());
    assert(printed(out@) =~= start + items_section(items@.subrange(0, 0), ar, w));
    while k < items.len()
        invariant
            k <= items@.len(),
            printed(out@) == start + items_section(items@.subrange(0, k as int), ar, w),
        decreases items@.len() - k,
    {
        let ghost before = printed(out@);
        write_item(out, &items[k], ar, w);
        proof {
            let next = items@.subrange(0, k + 1);
            assert(next.drop_last() =~= items@.subrange(0, k as int));
            assert(next.last() == items@[k as int]);
            assert(printed(out@) =~= start + items_section(next, ar, w));
        }
        k = k + 1;
    }
    assert(items@.subrange(0, items@.len() as int) =~= items@);
}

/// The receipt's subtotal, discount (when there is one), tax and total.
pub open spec fn receipt_totals(txn: Transaction, ar: bool, w: usize) -> Seq<Printed> {
    seq![Printed::TwoColumns(tr(ar, "المجموع الفرعي:"@, "Subtotal:"@), money_text(txn.subtotal), w)]
        + (if txn.discount_total.is_pos() {
        seq![Printed::TwoColumns(tr(ar, "الخصم:"@, "Discount:"@), "-"@ + money_text(txn.discount_total), w)]
    } else {
        seq![]
    }) + seq![
        Printed::TwoColumns(tr(ar, "الضريبة:"@, "Tax:"@), money_text(txn.tax_total), w),
        Printed::BoldOn,
        Printed::TwoColumns(tr(ar, "الإجمالي:"@, "TOTAL:"@), txn.currency@ + " "@ + money_text(txn.grand_total), w),
        Printed::BoldOff,
        Printed::Newline,
    ]
}

/// Writes the receipt's totals.
fn write_receipt_totals(out: &mut Vec<PrintCommand>, txn: &Transaction, ar: bool, w: usize)
    ensures
        printed(final(out)@) == printed(old(out)@) + receipt_totals(*txn, ar, w),
{
    let ghost start = printed(out@);
    two_col(out, pick(ar, "المجموع الفرعي:", "Subtotal:"), money(txn.subtotal).as_str(), w);
    if txn.discount_total.is_positive() {
        let d = cat("-", money(txn.discount_total).as_str());
        two_col(out, pick(ar, "الخصم:", "Discount:"), d.as_str(), w);
    }
    two_col(out, pick(ar, "الضريبة:", "Tax:"), money(txn.tax_total).as_str(), w);
    emit(out, PrintCommand::BoldOn);
    let mut total = cat(txn.currency.as_str(), " ");
    append_str(&mut total, money(txn.grand_total).as_str());
    two_col(out, pick(ar, "الإجمالي:", "TOTAL:"), total.as_str(), w);
    emit(out, PrintCommand::BoldOff);
    emit(out, PrintCommand::Newline);
    assert(printed(out@) =~= start + receipt_totals(*txn, ar, w));
}

/// How a payment is named on the receipt: a card by its type and last four digits, a wallet
/// by its type, where they are known; otherwise by the method's name.
pub open spec fn payment_label(p: Payment, ar: bool) -> Seq<char> {
    let method = "  "@ + (if ar {
        p.method.arabic_name()
    } else {
        p.method.english_name()
    });
    match p.method {
        PaymentMethod::Card => match (p.card_type, p.card_last_four) {
            (Some(t), Some(f)) => "  "@ + t@ + " *"@ + f@,
            _ => method,
        },
        PaymentMethod::Wallet => match p.wallet_type {
            Some(t) => "  "@ + t@,
            None => method,
        },
        _ => method,
    }
}

/// The payments, one line each, in order.
pub open spec fn payments_section(payments: Seq<Payment>, ar: bool, w: usize) -> Seq<Printed>
    decreases payments.len(),
{
    if payments.len() == 0 {
        seq![]
    } else {
        payments_section(payments.drop_last(), ar, w) + seq![
            Printed::TwoColumns(payment_label(payments.last(), ar), money_text(payments.last().amount), w),
        ]
    }
}

/// The change owed, when the payments' sum is known.
pub open spec fn receipt_change(txn: Transaction) -> Option<Dec> {
    match txn.paid() {
        Some(p) => change_of(txn.grand_total, p),
        None => None,
    }
}

/// The receipt's payments, then the change when some is due.
pub open spec fn receipt_payments(txn: Transaction, ar: bool, w: usize) -> Seq<Printed> {
    seq![Printed::Line(tr(ar, "المدفوعات:"@, "Payments:"@))] + payments_section(txn.payments@, ar, w)
        + (match receipt_change(txn) {
        Some(c) => if c.is_pos() {
            seq![
                Printed::BoldOn,
                Printed::TwoColumns(tr(ar, "الباقي:"@, "Change:"@), money_text(c), w),
                Printed::BoldOff,
            ]
        } else {
            seq![]
        },
        None => seq![],
    }) + seq![Printed::Newline]
}

/// How a payment is named on the receipt.
fn payment_name(p: &Payment, ar: bool) -> (s: String)
    ensures
        s@ == payment_label(*p, ar),
{
    let locale = pick(ar, "ar", "en");
    proof {
        reveal_strlit("ar");
        reveal_strlit("en");
        assert("en"@[0] != "ar"@[0]);
    }
    let method = cat("  ", p.method.display_name(locale));
    assert(locale@ == "ar"@ <==> ar);
    assert(method@ == "  "@ + (if ar {
        p.method.arabic_name()
    } else {
        p.method.english_name()
    }));
    match p.method {
        PaymentMethod::Card => match (&p.card_type, &p.card_last_four) {
            (Some(t), Some(f)) => {
                let mut s = cat("  ", t.as_str());
                append_str(&mut s, " *");
                append_str(&mut s, f.as_str());
                s
            },
            _ => method,
        },
        PaymentMethod::Wallet => match &p.wallet_type {
            Some(t) => cat("  ", t.as_str()),
            None => method,
        },
        _ => method,
    }
}

/// Writes the receipt's payments and change.
fn write_receipt_payments(out: &mut Vec<PrintCommand>, txn: &Transaction, ar: bool, w: usize)
    ensures
        printed(final(out)@) == printed(old(out)@) + receipt_payments(*txn, ar, w),
{
    let ghost start = printed(out@);
    line(out, pick(ar, "المدفوعات:", "Payments:"));
    let ghost head = printed(out@);
    let mut k: usize = 0;
    assert(txn.payments@.subrange(0, 0) =~= Seq::<Payment>::empty());
    assert(printed(out@) =~= head + payments_section(txn.payments@.subrange(0, 0), ar, w));
    while k < txn.payments.len()
        invariant
            k <= txn.payments@.len(),
            printed(out@) == head + payments_section(txn.payments@.subrange(0, k as int), ar, w),
        decreases txn.payments@.len() - k,
    {
        let p = &txn.payments[k];
        let name = payment_name(p, ar);
        two_col(out, name.as_str(), money(p.amount).as_str(), w);
        proof {
            let next = txn.payments@.subrange(0, k + 1);
            assert(next.drop_last() =~= txn.payments@.subrange(0, k as int));
            assert(next.last() == txn.payments@[k as int]);
            assert(printed(out@) =~= head + payments_section(next, ar, w));
        }
        k = k + 1;
    }
    assert(txn.payments@.subrange(0, txn.payments@.len() as int) =~= txn.payments@);
    match txn.change_due() {
        Some(c) => {
            if c.is_positive() {
                emit(out, PrintCommand::BoldOn);
                two_col(out, pick(ar, "الباقي:", "Change:"), money(c).as_str(), w);
                emit(out, PrintCommand::BoldOff);
            }
        },
        None => {},
    }
    emit(out, PrintCommand::Newline);
    assert(printed(out@) =~= start + receipt_payments(*txn, ar, w));
}

/// The number of units a receipt counts: the sum of the lines' quantities, truncated, where
/// it is known and fits an `i32`; else zero.
pub open spec fn receipt_unit_count(txn: Transaction) -> int {
    match sum_all(item_quantities(txn.items@)) {
        Some(q) => i32_or_zero(q),
        None => 0,
    }
}

/// The close of a receipt: the footer, the barcode and QR code when configured, the count of
/// units, then the feed, the cut and the drawer.
pub open spec fn receipt_footer(c: PrinterConfig, txn: Transaction, ar: bool, w: usize) -> Seq<Printed> {
    let number = receipt_number_text(txn);
    let count = int_text(receipt_unit_count(txn));
    seq![Printed::Rule(w), Printed::AlignCenter] + (if ar {
        match c.footer_text_ar {
            Some(f) => seq![Printed::Line(f@)],
            None => seq![],
        }
    } else {
        seq![Printed::Line(c.footer_text@)]
    }) + seq![Printed::Newline] + (if c.print_barcode {
        seq![Printed::Barcode128(number), Printed::Newline]
    } else {
        seq![]
    }) + (if c.print_qr_code {
        seq![Printed::QrCode("RCP:"@ + number, RECEIPT_QR_SIZE), Printed::Newline]
    } else {
        seq![]
    }) + seq![
        Printed::Line(tr(ar, count + " سلعة"@, count + " item(s)"@)),
        Printed::Feed(3),
        Printed::Cut,
        Printed::OpenDrawer,
    ]
}

/// Writes the close of a receipt.
fn write_receipt_footer(out: &mut Vec<PrintCommand>, c: &PrinterConfig, txn: &Transaction, ar: bool, w: usize)
    ensures
        printed(final(out)@) == printed(old(out)@) + receipt_footer(*c, *txn, ar, w),
{
    let ghost start = printed(out@);
    emit(out, PrintCommand::Rule(w));
    emit(out, PrintCommand::AlignCenter);
    if ar {
        match &c.footer_text_ar {
            Some(f) => line(out, f.as_str()),
            None => {},
        }
    } else {
        line(out, c.footer_text.as_str());
    }
    emit(out, PrintCommand::Newline);
    let number = receipt_number(txn);
    if c.print_barcode {
        emit(out, PrintCommand::Barcode128(owned(number)));
        emit(out, PrintCommand::Newline);
    }
    if c.print_qr_code {
        emit(out, PrintCommand::QrCode(cat("RCP:", number), RECEIPT_QR_SIZE));
        emit(out, PrintCommand::Newline);
    }
    let n: i32 = match txn.item_count() {
        Some(q) => match q.to_i32() {
            Some(n) => n,
            None => 0,
        },
        None => 0,
    };
    let mut count = String::new();
    append_int(&mut count, n as i64);
    proof {
        reveal_strlit("");
    }
    assert(count@ =~= int_text(receipt_unit_count(*txn)));
    append_str(&mut count, pick(ar, " سلعة", " item(s)"));
    line(out, count.as_str());
    emit(out, PrintCommand::Feed(3));
    emit(out, PrintCommand::Cut);
    emit(out, PrintCommand::OpenDrawer);
    assert(printed(out@) =~= start + receipt_footer(*c, *txn, ar, w));
}

/// A whole receipt.
pub open spec fn receipt(c: PrinterConfig, txn: Transaction, ar: bool) -> Seq<Printed> {
    let w = c.paper_width;
    receipt_header(c, ar) + receipt_info(txn, ar, w) + items_section(txn.items@, ar, w) + seq![Printed::Rule(w)]
        + receipt_totals(txn, ar, w) + receipt_payments(txn, ar, w) + receipt_footer(c, txn, ar, w)
}

/// A receipt shows, each under its label and rounded to three places, the sale's subtotal,
/// its discount when there is one (after a minus sign), its tax, and its grand total (after
/// the currency).
pub proof fn lemma_receipt_shows_totals(c: PrinterConfig, txn: Transaction, ar: bool)
    ensures
        txn.discount_total.is_pos() ==> receipt(c, txn, ar).contains(
            Printed::TwoColumns(tr(ar, "الخصم:"@, "Discount:"@), "-"@ + money_text(txn.discount_total), c.paper_width),
        ),
        receipt(c, txn, ar).contains(
            Printed::TwoColumns(tr(ar, "الضريبة:"@, "Tax:"@), money_text(txn.tax_total), c.paper_width),
        ),
        receipt(c, txn, ar).contains(
            Printed::TwoColumns(tr(ar, "المجموع الفرعي:"@, "Subtotal:"@), money_text(txn.subtotal), c.paper_width),
        ),
        receipt(c, txn, ar).contains(
            Printed::TwoColumns(
                tr(ar, "الإجمالي:"@, "TOTAL:"@),
                txn.currency@ + " "@ + money_text(txn.grand_total),
                c.paper_width,
            ),
        ),
{
    let w = c.paper_width;
    let head = receipt_header(c, ar) + receipt_info(txn, ar, w) + items_section(txn.items@, ar, w) + seq![
        Printed::Rule(w),
    ];
    let totals = receipt_totals(txn, ar, w);
    let tail = receipt_payments(txn, ar, w) + receipt_footer(c, txn, ar, w);
    let all = receipt(c, txn, ar);
    assert(all =~= head + totals + tail);
    let tax = Printed::TwoColumns(tr(ar, "الضريبة:"@, "Tax:"@), money_text(txn.tax_total), w);
    let sub = Printed::TwoColumns(tr(ar, "المجموع الفرعي:"@, "Subtotal:"@), money_text(txn.subtotal), w);
    let total = Printed::TwoColumns(
        tr(ar, "الإجمالي:"@, "TOTAL:"@),
        txn.currency@ + " "@ + money_text(txn.grand_total),
        w,
    );
    assert(totals[0] == sub);
    assert(all[head.len() + 0int] == sub);
    if txn.discount_total.is_pos() {
        let d = Printed::TwoColumns(tr(ar, "الخصم:"@, "Discount:"@), "-"@ + money_text(txn.discount_total), w);
        assert(totals[1] == d);
        assert(all[head.len() + 1int] == d);
        assert(totals[2] == tax);
        assert(all[head.len() + 2int] == tax);
        assert(totals[4] == total);
        assert(all[head.len() + 4int] == total);
    } else {
        assert(totals[1] == tax);
        assert(all[head.len() + 1int] == tax);
        assert(totals[3] == total);
        assert(all[head.len() + 3int] == total);
    }
}

// ============================================================================
// Shift reports
// ============================================================================

/// The figures of a shift, for the X and Z reports.
#[derive(Clone, Debug)]
pub struct ShiftReport {
    /// The shift's number.
    pub shift_number: String,
    /// The operator's name.
    pub operator_name: String,
    /// The terminal's identifier.
    pub terminal_id: String,
    /// When the shift started.
    pub start_time: String,
    /// When the shift ended (for the Z report).
    pub end_time: Option<String>,
    /// The number of transactions.
    pub transaction_count: u32,
    /// Gross sales.
    pub gross_sales: Dec,
    /// Discounts given.
    pub discounts: Dec,
    /// Tax collected.
    pub tax: Dec,
    /// Net sales (gross less discounts plus tax).
    pub net_sales: Dec,
    /// Cash payments.
    pub cash_total: Dec,
    /// Card payments.
    pub card_total: Dec,
    /// Wallet payments.
    pub wallet_total: Dec,
    /// Credit payments.
    pub credit_total: Dec,
    /// Cash in the drawer at the start.
    pub opening_float: Dec,
    /// Cash expected in the drawer.
    pub expected_cash: Dec,
    /// Cash counted in the drawer (for the Z report).
    pub counted_cash: Option<Dec>,
    /// Counted less expected cash.
    pub cash_variance: Option<Dec>,
    /// The number of returns.
    pub return_count: u32,
    /// The value of the returns.
    pub return_total: Dec,
    /// The number of voided transactions.
    pub void_count: u32,
    /// The currency's code.
    pub currency: String,
}

impl Default for ShiftReport {
    fn default() -> (r: ShiftReport)
        ensures
            r.shift_number@.len() == 0,
            r.operator_name@.len() == 0,
            r.terminal_id@.len() == 0,
            r.start_time@.len() == 0,
            r.end_time is None,
            r.transaction_count == 0,
            r.gross_sales == Dec::spec_zero(),
            r.discounts == Dec::spec_zero(),
            r.tax == Dec::spec_zero(),
            r.net_sales == Dec::spec_zero(),
            r.cash_total == Dec::spec_zero(),
            r.card_total == Dec::spec_zero(),
            r.wallet_total == Dec::spec_zero(),
            r.credit_total == Dec::spec_zero(),
            r.opening_float == Dec::spec_zero(),
            r.expected_cash == Dec::spec_zero(),
            r.counted_cash is None,
            r.cash_variance is None,
            r.return_count == 0,
            r.return_total == Dec::spec_zero(),
            r.void_count == 0,
            r.currency@.len() == 0,
    {
        ShiftReport {
            shift_number: String::new(),
            operator_name: String::new(),
            terminal_id: String::new(),
            start_time: String::new(),
            end_time: None,
            transaction_count: 0,
            gross_sales: Dec::zero(),
            discounts: Dec::zero(),
            tax: Dec::zero(),
            net_sales: Dec::zero(),
            cash_total: Dec::zero(),
            card_total: Dec::zero(),
            wallet_total: Dec::zero(),
            credit_total: Dec::zero(),
            opening_float: Dec::zero(),
            expected_cash: Dec::zero(),
            counted_cash: None,
            cash_variance: None,
            return_count: 0,
            return_total: Dec::zero(),
            void_count: 0,
            currency: String::new(),
        }
    }
}

/// The reset and, for Arabic, the Arabic character table.
pub open spec fn document_start(ar: bool) -> Seq<Printed> {
    seq![Printed::Init] + (if ar {
        seq![Printed::CodePage(ARABIC_CODE_PAGE)]
    } else {
        seq![]
    })
}

/// A section heading: bold and centred, then back to the left.
pub open spec fn heading(t: Seq<char>) -> Seq<Printed> {
    seq![Printed::BoldOn, Printed::AlignCenter, Printed::Line(t), Printed::BoldOff, Printed::AlignLeft]
}

/// An amount behind the currency's code.
pub open spec fn currency_amount(currency: Seq<char>, d: Dec) -> Seq<char> {
    currency + " "@ + money_text(d)
}

/// The shift's number, operator, terminal and start, for either report.
pub open spec fn shift_lines(r: ShiftReport, ar: bool, w: usize) -> Seq<Printed> {
    seq![
        Printed::TwoColumns(tr(ar, "الوردية:"@, "Shift:"@), r.shift_number@, w),
        Printed::TwoColumns(tr(ar, "الموظف:"@, "Operator:"@), r.operator_name@, w),
        Printed::TwoColumns(tr(ar, "الجهاز:"@, "Terminal:"@), r.terminal_id@, w),
        Printed::TwoColumns(tr(ar, "بدأت:"@, "Started:"@), r.start_time@, w),
    ]
}

/// The count of returns and their value.
pub open spec fn returns_text(r: ShiftReport) -> Seq<char> {
    nat_text(r.return_count as nat) + " ("@ + money_text(r.return_total) + ")"@
}

/// The returns and the voids, each when there were any.
pub open spec fn adjustment_lines(r: ShiftReport, ar: bool, w: usize) -> Seq<Printed> {
    (if r.return_count > 0 {
        seq![Printed::TwoColumns(tr(ar, "المرتجعات:"@, "Returns:"@), returns_text(r), w)]
    } else {
        seq![]
    }) + (if r.void_count > 0 {
        seq![Printed::TwoColumns(tr(ar, "الملغاة:"@, "Voids:"@), nat_text(r.void_count as nat), w)]
    } else {
        seq![]
    })
}

/// Writes the reset and the character table.
fn write_document_start(out: &mut Vec<PrintCommand>, ar: bool)
    ensures
        printed(final(out)@) == printed(old(out)@) + document_start(ar),
{
    let ghost start = printed(out@);
    emit(out, PrintCommand::Init);
    if ar {
        emit(out, PrintCommand::CodePage(ARABIC_CODE_PAGE));
    }
    assert(printed(out@) =~= start + document_start(ar));
}

/// Writes a section heading.
fn write_heading(out: &mut Vec<PrintCommand>, t: &str)
    ensures
        printed(final(out)@) == printed(old(out)@) + heading(t@),
{
    let ghost start = printed(out@);
    emit(out, PrintCommand::BoldOn);
    emit(out, PrintCommand::AlignCenter);
    line(out, t);
    emit(out, PrintCommand::BoldOff);
    emit(out, PrintCommand::AlignLeft);
    assert(printed(out@) =~= start + heading(t@));
}

/// An amount behind the currency's code, written out.
fn currency_money(currency: &str, d: Dec) -> (s: String)
    ensures
        s@ == currency_amount(currency@, d),
{
    let mut s = cat(currency, " ");
    append_str(&mut s, money(d).as_str());
    s
}

/// Writes the shift's number, operator, terminal and start.
fn write_shift_lines(out: &mut Vec<PrintCommand>, r: &ShiftReport, ar: bool, w: usize)
    ensures
        printed(final(out)@) == printed(old(out)@) + shift_lines(*r, ar, w),
{
    let ghost start = printed(out@);
    two_col(out, pick(ar, "الوردية:", "Shift:"), r.shift_number.as_str(), w);
    two_col(out, pick(ar, "الموظف:", "Operator:"), r.operator_name.as_str(), w);
    two_col(out, pick(ar, "الجهاز:", "Terminal:"), r.terminal_id.as_str(), w);
    two_col(out, pick(ar, "بدأت:", "Started:"), r.start_time.as_str(), w);
    assert(printed(out@) =~= start + shift_lines(*r, ar, w));
}

/// Writes the returns and the voids.
fn write_adjustment_lines(out: &mut Vec<PrintCommand>, r: &ShiftReport, ar: bool, w: usize)
    ensures
        printed(final(out)@) == printed(old(out)@) + adjustment_lines(*r, ar, w),
{
    let ghost start = printed(out@);
    if r.return_count > 0 {
        let mut t = nat_to_text(r.return_count as u64);
        append_str(&mut t, " (");
        append_str(&mut t, money(r.return_total).as_str());
        append_str(&mut t, ")");
        two_col(out, pick(ar, "المرتجعات:", "Returns:"), t.as_str(), w);
    }
    if r.void_count > 0 {
        two_col(out, pick(ar, "الملغاة:", "Voids:"), nat_to_text(r.void_count as u64).as_str(), w);
    }
    assert(printed(out@) =~= start + adjustment_lines(*r, ar, w));
}

/// The opening of the X report: its title and subtitle, then the shift between rules.
pub open spec fn x_report_opening(r: ShiftReport, ar: bool, w: usize) -> Seq<Printed> {
    document_start(ar) + seq![
        Printed::AlignCenter,
        Printed::DoubleSize,
        Printed::BoldOn,
        Printed::Line(tr(ar, "تقرير X"@, "X REPORT"@)),
        Printed::Normal,
        Printed::Line(tr(ar, "ملخص الوردية"@, "Shift Summary"@)),
        Printed::BoldOff,
        Printed::Newline,
        Printed::AlignLeft,
        Printed::Rule(w),
    ] + shift_lines(r, ar, w) + seq![Printed::Rule(w)]
}

/// The X report's sales: transactions, gross, discounts, tax and the net in bold.
pub open spec fn x_report_sales(r: ShiftReport, ar: bool, w: usize) -> Seq<Printed> {
    seq![
        Printed::TwoColumns(tr(ar, "المعاملات:"@, "Transactions:"@), nat_text(r.transaction_count as nat), w),
        Printed::TwoColumns(tr(ar, "إجمالي المبيعات:"@, "Gross Sales:"@), currency_amount(r.currency@, r.gross_sales), w),
        Printed::TwoColumns(tr(ar, "الخصومات:"@, "Discounts:"@), "-"@ + money_text(r.discounts), w),
        Printed::TwoColumns(tr(ar, "الضريبة:"@, "Tax:"@), money_text(r.tax), w),
        Printed::BoldOn,
        Printed::TwoColumns(tr(ar, "صافي المبيعات:"@, "Net Sales:"@), currency_amount(r.currency@, r.net_sales), w),
        Printed::BoldOff,
        Printed::Rule(w),
    ]
}

/// The X report's payments by method and its cash drawer.
pub open spec fn x_report_money(r: ShiftReport, ar: bool, w: usize) -> Seq<Printed> {
    seq![
        Printed::Line(tr(ar, "حسب طريقة الدفع:"@, "By Payment Method:"@)),
        Printed::TwoColumns(tr(ar, "  نقدي:"@, "  Cash:"@), money_text(r.cash_total), w),
        Printed::TwoColumns(tr(ar, "  بطاقة:"@, "  Card:"@), money_text(r.card_total), w),
        Printed::TwoColumns(tr(ar, "  محفظة:"@, "  Wallet:"@), money_text(r.wallet_total), w),
        Printed::TwoColumns(tr(ar, "  آجل:"@, "  Credit:"@), money_text(r.credit_total), w),
        Printed::Rule(w),
        Printed::Line(tr(ar, "الدرج النقدي:"@, "Cash Drawer:"@)),
        Printed::TwoColumns(tr(ar, "  رصيد البداية:"@, "  Opening Float:"@), money_text(r.opening_float), w),
        Printed::TwoColumns(tr(ar, "  المتوقع:"@, "  Expected Cash:"@), money_text(r.expected_cash), w),
    ]
}

/// The X report's close: the returns and voids when there were any, then the
/// non-clearing note, the feed and the cut.
pub open spec fn x_report_close(r: ShiftReport, ar: bool, w: usize) -> Seq<Printed> {
    (if r.return_count > 0 || r.void_count > 0 {
        seq![Printed::Rule(w)] + adjustment_lines(r, ar, w)
    } else {
        seq![]
    }) + seq![
        Printed::Newline,
        Printed::AlignCenter,
        Printed::Line(tr(ar, "* تقرير غير مقاصص *"@, "* Non-Clearing Report *"@)),
        Printed::Feed(3),
        Printed::Cut,
    ]
}

/// A whole X report: the shift's summary, which clears nothing.
pub open spec fn x_report(c: PrinterConfig, r: ShiftReport, ar: bool) -> Seq<Printed> {
    let w = c.paper_width;
    x_report_opening(r, ar, w) + x_report_sales(r, ar, w) + x_report_money(r, ar, w) + x_report_close(r, ar, w)
}

/// Writes the opening of the X report.
fn write_x_report_opening(out: &mut Vec<PrintCommand>, r: &ShiftReport, ar: bool, w: usize)
    ensures
        printed(final(out)@) == printed(old(out)@) + x_report_opening(*r, ar, w),
{
    let ghost start = printed(out@);
    write_document_start(out, ar);
    emit(out, PrintCommand::AlignCenter);
    emit(out, PrintCommand::DoubleSize);
    emit(out, PrintCommand::BoldOn);
    line(out, pick(ar, "تقرير X", "X REPORT"));
    emit(out, PrintCommand::Normal);
    line(out, pick(ar, "ملخص الوردية", "Shift Summary"));
    emit(out, PrintCommand::BoldOff);
    emit(out, PrintCommand::Newline);
    emit(out, PrintCommand::AlignLeft);
    emit(out, PrintCommand::Rule(w));
    write_shift_lines(out, r, ar, w);
    emit(out, PrintCommand::Rule(w));
    assert(printed(out@) =~= start + x_report_opening(*r, ar, w));
}

/// Writes the X report's sales.
fn write_x_report_sales(out: &mut Vec<PrintCommand>, r: &ShiftReport, ar: bool, w: usize)
    ensures
        printed(final(out)@) == printed(old(out)@) + x_report_sales(*r, ar, w),
{
    let ghost start = printed(out@);
    two_col(out, pick(ar, "المعاملات:", "Transactions:"), nat_to_text(r.transaction_count as u64).as_str(), w);
    two_col(out, pick(ar, "إجمالي المبيعات:", "Gross Sales:"), currency_money(r.currency.as_str(), r.gross_sales).as_str(), w);
    two_col(out, pick(ar, "الخصومات:", "Discounts:"), cat("-", money(r.discounts).as_str()).as_str(), w);
    two_col(out, pick(ar, "الضريبة:", "Tax:"), money(r.tax).as_str(), w);
    emit(out, PrintCommand::BoldOn);
    two_col(out, pick(ar, "صافي المبيعات:", "Net Sales:"), currency_money(r.currency.as_str(), r.net_sales).as_str(), w);
    emit(out, PrintCommand::BoldOff);
    emit(out, PrintCommand::Rule(w));
    assert(printed(out@) =~= start + x_report_sales(*r, ar, w));
}

/// Writes the X report's payments and cash drawer.
fn write_x_report_money(out: &mut Vec<PrintCommand>, r: &ShiftReport, ar: bool, w: usize)
    ensures
        printed(final(out)@) == printed(old(out)@) + x_report_money(*r, ar, w),
{
    let ghost start = printed(out@);
    line(out, pick(ar, "حسب طريقة الدفع:", "By Payment Method:"));
    two_col(out, pick(ar, "  نقدي:", "  Cash:"), money(r.cash_total).as_str(), w);
    two_col(out, pick(ar, "  بطاقة:", "  Card:"), money(r.card_total).as_str(), w);
    two_col(out, pick(ar, "  محفظة:", "  Wallet:"), money(r.wallet_total).as_str(), w);
    two_col(out, pick(ar, "  آجل:", "  Credit:"), money(r.credit_total).as_str(), w);
    emit(out, PrintCommand::Rule(w));
    line(out, pick(ar, "الدرج النقدي:", "Cash Drawer:"));
    two_col(out, pick(ar, "  رصيد البداية:", "  Opening Float:"), money(r.opening_float).as_str(), w);
    two_col(out, pick(ar, "  المتوقع:", "  Expected Cash:"), money(r.expected_cash).as_str(), w);
    assert(printed(out@) =~= start + x_report_money(*r, ar, w));
}

/// Writes the X report's close.
fn write_x_report_close(out: &mut Vec<PrintCommand>, r: &ShiftReport, ar: bool, w: usize)
    ensures
        printed(final(out)@) == printed(old(out)@) + x_report_close(*r, ar, w),
{
    let ghost start = printed(out@);
    if r.return_count > 0 || r.void_count > 0 {
        emit(out, PrintCommand::Rule(w));
        write_adjustment_lines(out, r, ar, w);
    }
    emit(out, PrintCommand::Newline);
    emit(out, PrintCommand::AlignCenter);
    line(out, pick(ar, "* تقرير غير مقاصص *", "* Non-Clearing Report *"));
    emit(out, PrintCommand::Feed(3));
    emit(out, PrintCommand::Cut);
    assert(printed(out@) =~= start + x_report_close(*r, ar, w));
}

/// The opening of the Z report: its title, the store, then the shift between double rules.
pub open spec fn z_report_opening(c: PrinterConfig, r: ShiftReport, ar: bool, w: usize) -> Seq<Printed> {
    document_start(ar) + seq![
        Printed::AlignCenter,
        Printed::DoubleSize,
        Printed::BoldOn,
        Printed::Line(tr(ar, "تقرير Z - نهاية اليوم"@, "Z REPORT - END OF DAY"@)),
        Printed::Normal,
        Printed::BoldOff,
        Printed::Newline,
    ] + (if ar {
        match c.store_name_ar {
            Some(n) => seq![Printed::Line(n@)],
            None => seq![],
        }
    } else {
        seq![Printed::Line(c.store_name@)]
    }) + seq![Printed::Newline, Printed::AlignLeft, Printed::DoubleRule(w)] + shift_lines(r, ar, w)
        + (match r.end_time {
        Some(e) => seq![Printed::TwoColumns(tr(ar, "انتهت:"@, "Ended:"@), e@, w)],
        None => seq![],
    }) + seq![Printed::DoubleRule(w)]
}

/// The Z report's sales summary.
pub open spec fn z_report_sales(r: ShiftReport, ar: bool, w: usize) -> Seq<Printed> {
    heading(tr(ar, "ملخص المبيعات"@, "SALES SUMMARY"@)) + seq![
        Printed::TwoColumns(tr(ar, "المعاملات:"@, "Transactions:"@), nat_text(r.transaction_count as nat), w),
        Printed::TwoColumns(tr(ar, "إجمالي المبيعات:"@, "Gross Sales:"@), money_text(r.gross_sales), w),
        Printed::TwoColumns(tr(ar, "الخصومات:"@, "Discounts:"@), "-"@ + money_text(r.discounts), w),
        Printed::TwoColumns(tr(ar, "الضريبة:"@, "Tax:"@), money_text(r.tax), w),
        Printed::Rule(w),
        Printed::BoldOn,
        Printed::TwoColumns(tr(ar, "صافي المبيعات:"@, "NET SALES:"@), currency_amount(r.currency@, r.net_sales), w),
        Printed::BoldOff,
        Printed::DoubleRule(w),
    ]
}

/// The Z report's payment breakdown.
pub open spec fn z_report_payments(r: ShiftReport, ar: bool, w: usize) -> Seq<Printed> {
    heading(tr(ar, "تفاصيل المدفوعات"@, "PAYMENT BREAKDOWN"@)) + seq![
        Printed::TwoColumns(tr(ar, "نقدي:"@, "Cash:"@), money_text(r.cash_total), w),
        Printed::TwoColumns(tr(ar, "بطاقة:"@, "Card:"@), money_text(r.card_total), w),
        Printed::TwoColumns(tr(ar, "محفظة:"@, "Wallet:"@), money_text(r.wallet_total), w),
        Printed::TwoColumns(tr(ar, "آجل:"@, "Credit:"@), money_text(r.credit_total), w),
        Printed::DoubleRule(w),
    ]
}

/// A cash variance as the Z report shows it: signed, or `0.000` for none.
pub open spec fn variance_text(v: Dec) -> Seq<char> {
    if v.is_neg() {
        "-"@ + money_text(v.spec_abs())
    } else if v.is_pos() {
        "+"@ + money_text(v)
    } else {
        "0.000"@
    }
}

/// A cash variance prints as its sign followed by its size rounded to three places: `+` for
/// a drawer that is over, `-` for one that is short, and `0.000` when it balances. (Every
/// decimal's mantissa fits, so its size is the mantissa without its sign.)
pub proof fn lemma_variance_sign(v: Dec)
    ensures
        v.is_pos() ==> variance_text(v).len() > 0 && variance_text(v)[0] == '+'
            && variance_text(v).drop_first() == money_text(v),
        v.is_neg() ==> variance_text(v).len() > 0 && variance_text(v)[0] == '-'
            && variance_text(v).drop_first() == money_text(v.spec_abs()),
        v.is_neg() && fits(v.num()) ==> v.spec_abs().num() == -v.num() && v.spec_abs().exp() == v.exp(),
        !v.is_pos() && !v.is_neg() ==> variance_text(v) == "0.000"@,
{
    reveal_strlit("+");
    reveal_strlit("-");
    if fits(v.num()) {
        v.lemma_abs();
    }
    assert(("+"@ + money_text(v)).drop_first() =~= money_text(v));
    assert(("-"@ + money_text(v.spec_abs())).drop_first() =~= money_text(v.spec_abs()));
}

/// The Z report's cash reconciliation: opening, expected, and the count and its variance
/// when the drawer was counted.
pub open spec fn z_report_cash(r: ShiftReport, ar: bool, w: usize) -> Seq<Printed> {
    heading(tr(ar, "مطابقة الصندوق"@, "CASH RECONCILIATION"@)) + seq![
        Printed::TwoColumns(tr(ar, "رصيد البداية:"@, "Opening Float:"@), money_text(r.opening_float), w),
        Printed::TwoColumns(tr(ar, "المتوقع:"@, "Expected:"@), money_text(r.expected_cash), w),
    ] + (match r.counted_cash {
        Some(counted) => seq![Printed::TwoColumns(tr(ar, "المعدود:"@, "Counted:"@), money_text(counted), w)]
            + (match r.cash_variance {
            Some(v) => seq![
                Printed::BoldOn,
                Printed::TwoColumns(tr(ar, "الفرق:"@, "Variance:"@), variance_text(v), w),
                Printed::BoldOff,
            ],
            None => seq![],
        }),
        None => seq![],
    })
}

/// A Z report of a counted drawer shows the variance under its label, signed as
/// `lemma_variance_sign` says.
pub proof fn lemma_z_report_shows_variance(c: PrinterConfig, r: ShiftReport, ar: bool)
    requires
        r.counted_cash is Some,
        r.cash_variance is Some,
    ensures
        z_report(c, r, ar).contains(
            Printed::TwoColumns(tr(ar, "الفرق:"@, "Variance:"@), variance_text(r.cash_variance->0), c.paper_width),
        ),
{
    let w = c.paper_width;
    let head = z_report_opening(c, r, ar, w) + z_report_sales(r, ar, w) + z_report_payments(r, ar, w);
    let cash = z_report_cash(r, ar, w);
    let all = z_report(c, r, ar);
    assert(all =~= head + cash + z_report_close(r, ar, w));
    let h = heading(tr(ar, "مطابقة الصندوق"@, "CASH RECONCILIATION"@));
    let x = Printed::TwoColumns(tr(ar, "الفرق:"@, "Variance:"@), variance_text(r.cash_variance->0), w);
    assert(cash[h.len() + 4int] == x);
    assert(all[head.len() + h.len() + 4int] == x);
}

/// The Z report's close: the adjustments when there were any, the clearing note, the
/// supervisor's signature line, the feed and the cut.
pub open spec fn z_report_close(r: ShiftReport, ar: bool, w: usize) -> Seq<Printed> {
    (if r.return_count > 0 || r.void_count > 0 {
        seq![Printed::DoubleRule(w)] + heading(tr(ar, "التعديلات"@, "ADJUSTMENTS"@)) + adjustment_lines(r, ar, w)
    } else {
        seq![]
    }) + seq![
        Printed::DoubleRule(w),
        Printed::Newline,
        Printed::AlignCenter,
        Printed::BoldOn,
        Printed::Line(tr(ar, "** تقرير مقاصص **"@, "** CLEARING REPORT **"@)),
        Printed::BoldOff,
        Printed::Newline,
        Printed::Line(tr(ar, "توقيع المشرف: ______________"@, "Supervisor Sign: ______________"@)),
        Printed::Feed(4),
        Printed::Cut,
    ]
}

/// A whole Z report: the end of the day, which clears the shift.
pub open spec fn z_report(c: PrinterConfig, r: ShiftReport, ar: bool) -> Seq<Printed> {
    let w = c.paper_width;
    z_report_opening(c, r, ar, w) + z_report_sales(r, ar, w) + z_report_payments(r, ar, w) + z_report_cash(r, ar, w)
        + z_report_close(r, ar, w)
}

/// Writes the opening of the Z report.
#[verifier::rlimit(30)]
fn write_z_report_opening(out: &mut Vec<PrintCommand>, c: &PrinterConfig, r: &ShiftReport, ar: bool, w: usize)
    ensures
        printed(final(out)@) == printed(old(out)@) + z_report_opening(*c, *r, ar, w),
{
    let ghost start = printed(out@);
    write_document_start(out, ar);
    emit(out, PrintCommand::AlignCenter);
    emit(out, PrintCommand::DoubleSize);
    emit(out, PrintCommand::BoldOn);
    line(out, pick(ar, "تقرير Z - نهاية اليوم", "Z REPORT - END OF DAY"));
    emit(out, PrintCommand::Normal);
    emit(out, PrintCommand::BoldOff);
    emit(out, PrintCommand::Newline);
    if ar {
        match &c.store_name_ar {
            Some(n) => line(out, n.as_str()),
            None => {},
        }
    } else {
        line(out, c.store_name.as_str());
    }
    emit(out, PrintCommand::Newline);
    emit(out, PrintCommand::AlignLeft);
    emit(out, PrintCommand::DoubleRule(w));
    write_shift_lines(out, r, ar, w);
    match &r.end_time {
        Some(e) => two_col(out, pick(ar, "انتهت:", "Ended:"), e.as_str(), w),
        None => {},
    }
    emit(out, PrintCommand::DoubleRule(w));
    assert(printed(out@) =~= start + z_report_opening(*c, *r, ar, w));
}

/// Writes the Z report's sales summary.
fn write_z_report_sales(out: &mut Vec<PrintCommand>, r: &ShiftReport, ar: bool, w: usize)
    ensures
        printed(final(out)@) == printed(old(out)@) + z_report_sales(*r, ar, w),
{
    let ghost start = printed(out@);
    write_heading(out, pick(ar, "ملخص المبيعات", "SALES SUMMARY"));
    two_col(out, pick(ar, "المعاملات:", "Transactions:"), nat_to_text(r.transaction_count as u64).as_str(), w);
    two_col(out, pick(ar, "إجمالي المبيعات:", "Gross Sales:"), money(r.gross_sales).as_str(), w);
    two_col(out, pick(ar, "الخصومات:", "Discounts:"), cat("-", money(r.discounts).as_str()).as_str(), w);
    two_col(out, pick(ar, "الضريبة:", "Tax:"), money(r.tax).as_str(), w);
    emit(out, PrintCommand::Rule(w));
    emit(out, PrintCommand::BoldOn);
    two_col(out, pick(ar, "صافي المبيعات:", "NET SALES:"), currency_money(r.currency.as_str(), r.net_sales).as_str(), w);
    emit(out, PrintCommand::BoldOff);
    emit(out, PrintCommand::DoubleRule(w));
    assert(printed(out@) =~= start + z_report_sales(*r, ar, w));
}

/// Writes the Z report's payment breakdown.
fn write_z_report_payments(out: &mut Vec<PrintCommand>, r: &ShiftReport, ar: bool, w: usize)
    ensures
        printed(final(out)@) == printed(old(out)@) + z_report_payments(*r, ar, w),
{
    let ghost start = printed(out@);
    write_heading(out, pick(ar, "تفاصيل المدفوعات", "PAYMENT BREAKDOWN"));
    two_col(out, pick(ar, "نقدي:", "Cash:"), money(r.cash_total).as_str(), w);
    two_col(out, pick(ar, "بطاقة:", "Card:"), money(r.card_total).as_str(), w);
    two_col(out, pick(ar, "محفظة:", "Wallet:"), money(r.wallet_total).as_str(), w);
    two_col(out, pick(ar, "آجل:", "Credit:"), money(r.credit_total).as_str(), w);
    emit(out, PrintCommand::DoubleRule(w));
    assert(printed(out@) =~= start + z_report_payments(*r, ar, w));
}

/// A cash variance as the Z report shows it.
fn variance(v: Dec) -> (s: String)
    ensures
        s@ == variance_text(v),
{
    if v.is_negative() {
        cat("-", money(v.abs()).as_str())
    } else if v.is_positive() {
        cat("+", money(v).as_str())
    } else {
        owned("0.000")
    }
}

/// Writes the Z report's cash reconciliation.
fn write_z_report_cash(out: &mut Vec<PrintCommand>, r: &ShiftReport, ar: bool, w: usize)
    ensures
        printed(final(out)@) == printed(old(out)@) + z_report_cash(*r, ar, w),
{
    let ghost start = printed(out@);
    write_heading(out, pick(ar, "مطابقة الصندوق", "CASH RECONCILIATION"));
    two_col(out, pick(ar, "رصيد البداية:", "Opening Float:"), money(r.opening_float).as_str(), w);
    two_col(out, pick(ar, "المتوقع:", "Expected:"), money(r.expected_cash).as_str(), w);
    match r.counted_cash {
        Some(counted) => {
            two_col(out, pick(ar, "المعدود:", "Counted:"), money(counted).as_str(), w);
            match r.cash_variance {
                Some(v) => {
                    emit(out, PrintCommand::BoldOn);
                    two_col(out, pick(ar, "الفرق:", "Variance:"), variance(v).as_str(), w);
                    emit(out, PrintCommand::BoldOff);
                },
                None => {},
            }
        },
        None => {},
    }
    assert(printed(out@) =~= start + z_report_cash(*r, ar, w));
}

/// Writes the Z report's close.
fn write_z_report_close(out: &mut Vec<PrintCommand>, r: &ShiftReport, ar: bool, w: usize)
    ensures
        printed(final(out)@) == printed(old(out)@) + z_report_close(*r, ar, w),
{
    let ghost start = printed(out@);
    if r.return_count > 0 || r.void_count > 0 {
        emit(out, PrintCommand::DoubleRule(w));
        write_heading(out, pick(ar, "التعديلات", "ADJUSTMENTS"));
        write_adjustment_lines(out, r, ar, w);
    }
    emit(out, PrintCommand::DoubleRule(w));
    emit(out, PrintCommand::Newline);
    emit(out, PrintCommand::AlignCenter);
    emit(out, PrintCommand::BoldOn);
    line(out, pick(ar, "** تقرير مقاصص **", "** CLEARING REPORT **"));
    emit(out, PrintCommand::BoldOff);
    emit(out, PrintCommand::Newline);
    line(out, pick(ar, "توقيع المشرف: ______________", "Supervisor Sign: ______________"));
    emit(out, PrintCommand::Feed(4));
    emit(out, PrintCommand::Cut);
    assert(printed(out@) =~= start + z_report_close(*r, ar, w));
}

/// The commands that open the cash drawer.
pub open spec fn drawer_commands() -> Seq<Printed> {
    seq![Printed::Init, Printed::OpenDrawer]
}

/// The commands of a test page.
pub open spec fn test_page() -> Seq<Printed> {
    seq![
        Printed::Init,
        Printed::AlignCenter,
        Printed::DoubleSize,
        Printed::BoldOn,
        Printed::Line("TEST PRINT"@),
        Printed::Normal,
        Printed::BoldOff,
        Printed::Line("Printer test successful!"@),
        Printed::Newline,
        Printed::Barcode128("TEST123"@),
        Printed::Feed(3),
        Printed::Cut,
    ]
}

// ============================================================================
// The service
// ============================================================================

/// Lays out receipts and reports for one printer configuration.
#[derive(Clone, Debug)]
pub struct PrintService {
    config: PrinterConfig,
}

impl PrintService {
    /// The configuration documents are laid out for.
    pub closed spec fn spec_config(self) -> PrinterConfig {
        self.config
    }

    /// A service for the given configuration.
    pub fn new(config: PrinterConfig) -> (s: PrintService)
        ensures
            s.spec_config() == config,
    {
        PrintService { config }
    }

    /// A service printing to the console, with the default configuration.
    pub fn console_only() -> (s: PrintService)
        ensures
            s.spec_config().printer_path is None,
            s.spec_config().paper_width == 42,
    {
        PrintService::new(PrinterConfig::default())
    }

    /// Whether a printer device is configured.
    pub fn has_printer(&self) -> (b: bool)
        ensures
            b == self.spec_config().printer_path is Some,
    {
        self.config.printer_path.is_some()
    }

    /// The configuration.
    pub fn config(&self) -> (c: &PrinterConfig)
        ensures
            *c == self.spec_config(),
    {
        &self.config
    }

    /// Sets or clears the printer device.
    pub fn set_printer_path(&mut self, path: Option<String>)
        ensures
            final(self).spec_config().printer_path == path,
            final(self).spec_config().paper_width == old(self).spec_config().paper_width,
            final(self).spec_config().store_name == old(self).spec_config().store_name,
    {
        self.config.printer_path = path;
    }

    /// The receipt for a transaction, in Arabic for the locale `ar` and in English otherwise.
    pub fn build_receipt(&self, txn: &Transaction, locale: &str) -> (cmds: Vec<PrintCommand>)
        ensures
            printed(cmds@) == receipt(self.spec_config(), *txn, locale@ == "ar"@),
    {
        let ar = str_eq(locale, "ar");
        let w = self.config.paper_width;
        let mut out: Vec<PrintCommand> = Vec::new();
        assert(printed(out@) =~= Seq::<Printed>::empty());
        write_receipt_header(&mut out, &self.config, ar);
        assert(printed(out@) =~= receipt_header(self.config, ar));
        write_receipt_info(&mut out, txn, ar, w);
        write_items(&mut out, &txn.items, ar, w);
        emit(&mut out, PrintCommand::Rule(w));
        assert(printed(out@) =~= receipt_header(self.config, ar) + receipt_info(*txn, ar, w)
            + items_section(txn.items@, ar, w) + seq![Printed::Rule(w)]);
        write_receipt_totals(&mut out, txn, ar, w);
        write_receipt_payments(&mut out, txn, ar, w);
        write_receipt_footer(&mut out, &self.config, txn, ar, w);
        out
    }

    /// The X report (the shift's summary, which clears nothing), in Arabic for the locale
    /// `ar` and in English otherwise.
    pub fn build_x_report(&self, report: &ShiftReport, locale: &str) -> (cmds: Vec<PrintCommand>)
        ensures
            printed(cmds@) == x_report(self.spec_config(), *report, locale@ == "ar"@),
    {
        let ar = str_eq(locale, "ar");
        let w = self.config.paper_width;
        let mut out: Vec<PrintCommand> = Vec::new();
        assert(printed(out@) =~= Seq::<Printed>::empty());
        write_x_report_opening(&mut out, report, ar, w);
        assert(printed(out@) =~= x_report_opening(*report, ar, w));
        write_x_report_sales(&mut out, report, ar, w);
        write_x_report_money(&mut out, report, ar, w);
        write_x_report_close(&mut out, report, ar, w);
        out
    }

    /// The Z report (the end of the day, which clears the shift), in Arabic for the locale
    /// `ar` and in English otherwise.
    pub fn build_z_report(&self, report: &ShiftReport, locale: &str) -> (cmds: Vec<PrintCommand>)
        ensures
            printed(cmds@) == z_report(self.spec_config(), *report, locale@ == "ar"@),
    {
        let ar = str_eq(locale, "ar");
        let w = self.config.paper_width;
        let mut out: Vec<PrintCommand> = Vec::new();
        assert(printed(out@) =~= Seq::<Printed>::empty());
        write_z_report_opening(&mut out, &self.config, report, ar, w);
        assert(printed(out@) =~= z_report_opening(self.config, *report, ar, w));
        write_z_report_sales(&mut out, report, ar, w);
        write_z_report_payments(&mut out, report, ar, w);
        write_z_report_cash(&mut out, report, ar, w);
        write_z_report_close(&mut out, report, ar, w);
        out
    }

    /// The commands that open the cash drawer.
    pub fn drawer_commands(&self) -> (cmds: Vec<PrintCommand>)
        ensures
            printed(cmds@) == drawer_commands(),
    {
        let mut out: Vec<PrintCommand> = Vec::new();
        emit(&mut out, PrintCommand::Init);
        emit(&mut out, PrintCommand::OpenDrawer);
        assert(printed(out@) =~= drawer_commands());
        out
    }

    /// The commands of a test page.
    pub fn test_page(&self) -> (cmds: Vec<PrintCommand>)
        ensures
            printed(cmds@) == test_page(),
    {
        let mut out: Vec<PrintCommand> = Vec::new();
        emit(&mut out, PrintCommand::Init);
        emit(&mut out, PrintCommand::AlignCenter);
        emit(&mut out, PrintCommand::DoubleSize);
        emit(&mut out, PrintCommand::BoldOn);
        line(&mut out, "TEST PRINT");
        emit(&mut out, PrintCommand::Normal);
        emit(&mut out, PrintCommand::BoldOff);
        line(&mut out, "Printer test successful!");
        emit(&mut out, PrintCommand::Newline);
        emit(&mut out, PrintCommand::Barcode128(owned("TEST123")));
        emit(&mut out, PrintCommand::Feed(3));
        emit(&mut out, PrintCommand::Cut);
        assert(printed(out@) =~= test_page());
        out
    }
}

} // verus!
