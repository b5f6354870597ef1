use vstd::prelude::*;
use crate::calendar::ReportWindow;
use crate::number::format_i64;
use crate::number::i64_text;
use crate::number::parse_i64;
use crate::number::parsed_i64;
use crate::number::lemma_parse_format_roundtrip;
use crate::text::lemma_strip_leading_removes_all;
use crate::text::chars_of;
use crate::text::lowercase_of;
use crate::text::str_equal;
use crate::text::string_of;
use crate::text::strip_leading;
use crate::text::strip_leading_char;
use crate::text::to_lowercase;
use crate::utils::get_text;
use crate::utils::text_for;
use crate::utils::is_indonesian;
use crate::parser::ParsedExpense;
use crate::text::trim;
use crate::text::trimmed;

verus! {

broadcast use vstd::string::group_string_axioms;

// ---------------------------------------------------------------------------
// Replies
// ---------------------------------------------------------------------------

/// An inline keyboard button: one that sends callback data back to the bot, or a link.
pub enum Button {
    Callback { label: String, data: String },
    Link { label: String, url: String },
}

/// The content of a button.
pub enum ButtonView {
    Callback { label: Seq<char>, data: Seq<char> },
    Link { label: Seq<char>, url: Seq<char> },
}

impl View for Button {
    type V = ButtonView;

    open spec fn view(&self) -> ButtonView {
        match self {
            Button::Callback { label, data } => ButtonView::Callback { label: label@, data: data@ },
            Button::Link { label, url } => ButtonView::Link { label: label@, url: url@ },
        }
    }
}

/// The inline keyboards that the bot shows.
#[derive(Clone, Copy, PartialEq, Eq, Structural)]
pub enum Menu {
    /// No keyboard.
    Plain,
    /// Daily and weekly report buttons, then a feedback link.
    Dashboard,
    /// A link for asking the administrator for access.
    AccessRequest,
    /// A button back to the dashboard.
    BackToDashboard,
}

/// The rows of buttons of a menu, with labels in the language of `lang_code`.
pub open spec fn menu_rows(menu: Menu, lang_code: Seq<char>) -> Seq<Seq<ButtonView>> {
    match menu {
        Menu::Plain => seq![],
        Menu::Dashboard => seq![
            seq![
                ButtonView::Callback {
                    label: text_for("btn_daily"@, lang_code, ""@, "0.00"@),
                    data: "report_daily"@,
                },
                ButtonView::Callback {
                    label: text_for("btn_weekly"@, lang_code, ""@, "0.00"@),
                    data: "report_weekly"@,
                },
            ],
            seq![ButtonView::Link { label: "\u{1f4dd} Feedback"@, url: "https://subbarscrap.my.id"@ }],
        ],
        Menu::AccessRequest => seq![
            seq![
                ButtonView::Link {
                    label: text_for("btn_request"@, lang_code, ""@, "0.00"@),
                    url: "https://t.me/miesub"@,
                },
            ],
        ],
        Menu::BackToDashboard => seq![
            seq![
                ButtonView::Callback {
                    label: text_for("btn_back"@, lang_code, ""@, "0.00"@),
                    data: "back_to_dashboard"@,
                },
            ],
        ],
    }
}

/// The content of rows of buttons.
pub open spec fn rows_view(rows: Seq<Vec<Button>>) -> Seq<Seq<ButtonView>> {
    rows.map_values(|row: Vec<Button>| row@.map_values(|b: Button| b@))
}

/// The buttons of a menu, with labels in the language of `lang_code`.
pub fn menu_buttons(menu: Menu, lang_code: &str) -> (res: Vec<Vec<Button>>)
    ensures
        rows_view(res@) == menu_rows(menu, lang_code@),
{
    match menu {
        Menu::Plain => {
            let rows: Vec<Vec<Button>> = Vec::new();
            assert(rows_view(rows@) =~= menu_rows(menu, lang_code@));
            rows
        },
        Menu::Dashboard => {
            let daily = Button::Callback {
                label: get_text("btn_daily", lang_code, "", "0.00"),
                data: String::from_str("report_daily"),
            };
            let weekly = Button::Callback {
                label: get_text("btn_weekly", lang_code, "", "0.00"),
                data: String::from_str("report_weekly"),
            };
            let feedback = Button::Link {
                label: String::from_str("\u{1f4dd} Feedback"),
                url: String::from_str("https://subbarscrap.my.id"),
            };
            let mut first: Vec<Button> = Vec::new();
            first.push(daily);
            first.push(weekly);
            let mut second: Vec<Button> = Vec::new();
            second.push(feedback);
            let mut rows: Vec<Vec<Button>> = Vec::new();
            rows.push(first);
            rows.push(second);
            assert(rows@[0]@.map_values(|b: Button| b@) =~= menu_rows(menu, lang_code@)[0]);
            assert(rows@[1]@.map_values(|b: Button| b@) =~= menu_rows(menu, lang_code@)[1]);
            assert(rows_view(rows@) =~= menu_rows(menu, lang_code@));
            rows
        },
        Menu::AccessRequest => {
            let request = Button::Link {
                label: get_text("btn_request", lang_code, "", "0.00"),
                url: String::from_str("https://t.me/miesub"),
            };
            let mut first: Vec<Button> = Vec::new();
            first.push(request);
            let mut rows: Vec<Vec<Button>> = Vec::new();
            rows.push(first);
            assert(rows@[0]@.map_values(|b: Button| b@) =~= menu_rows(menu, lang_code@)[0]);
            assert(rows_view(rows@) =~= menu_rows(menu, lang_code@));
            rows
        },
        Menu::BackToDashboard => {
            let back = Button::Callback {
                label: get_text("btn_back", lang_code, "", "0.00"),
                data: String::from_str("back_to_dashboard"),
            };
            let mut first: Vec<Button> = Vec::new();
            first.push(back);
            let mut rows: Vec<Vec<Button>> = Vec::new();
            rows.push(first);
            assert(rows@[0]@.map_values(|b: Button| b@) =~= menu_rows(menu, lang_code@)[0]);
            assert(rows_view(rows@) =~= menu_rows(menu, lang_code@));
            rows
        },
    }
}


/// A message to send: its text, its keyboard, and whether the text is HTML.
pub struct Reply {
    pub text: String,
    pub menu: Menu,
    pub html: bool,
}

/// The content of a reply.
pub struct ReplyView {
    pub text: Seq<char>,
    pub menu: Menu,
    pub html: bool,
}

impl View for Reply {
    type V = ReplyView;

    open spec fn view(&self) -> ReplyView {
        ReplyView { text: self.text@, menu: self.menu, html: self.html }
    }
}

/// A reply of plain text without a keyboard.
pub open spec fn plain(text: Seq<char>) -> ReplyView {
    ReplyView { text, menu: Menu::Plain, html: false }
}

fn plain_reply(text: &str) -> (res: Reply)
    ensures
        res@ == plain(text@),
{
    Reply { text: String::from_str(text), menu: Menu::Plain, html: false }
}

// ---------------------------------------------------------------------------
// Commands
// ---------------------------------------------------------------------------

/// The bot's commands: /start, /whitelist <target>, /blacklist <target>, /report <period>.
pub enum Command {
    Start,
    Whitelist(String),
    Blacklist(String),
    Report(String),
}

/// The content of a command.
pub enum CommandView {
    Start,
    Whitelist(Seq<char>),
    Blacklist(Seq<char>),
    Report(Seq<char>),
}

impl View for Command {
    type V = CommandView;

    open spec fn view(&self) -> CommandView {
        match self {
            Command::Start => CommandView::Start,
            Command::Whitelist(t) => CommandView::Whitelist(t@),
            Command::Blacklist(t) => CommandView::Blacklist(t@),
            Command::Report(p) => CommandView::Report(p@),
        }
    }
}

/// What the bot knows of the user who writes: whether they are an administrator and whether
/// they are whitelisted.
#[derive(Clone, Copy)]
pub struct UserAccess {
    pub is_admin: bool,
    pub is_whitelisted: bool,
}

/// What the bot does about a command.
pub enum CommandPlan {
    /// Send this reply and stop.
    Send(Reply),
    /// Total the user's expenses since the start of the month and show the dashboard.
    ShowDashboard,
    /// Set the whitelist flag of the user with this Telegram id.
    SetAccessById { telegram_id: i64, whitelisted: bool },
    /// Set the whitelist flag of the user with this username.
    SetAccessByUsername { username: String, whitelisted: bool },
    /// Total the user's expenses since the start of this window and report it.
    Report(ReportWindow),
}

/// The content of a command plan.
pub enum CommandPlanView {
    Send(ReplyView),
    ShowDashboard,
    SetAccessById(i64, bool),
    SetAccessByUsername(Seq<char>, bool),
    Report(ReportWindow),
}

impl View for CommandPlan {
    type V = CommandPlanView;

    open spec fn view(&self) -> CommandPlanView {
        match self {
            CommandPlan::Send(r) => CommandPlanView::Send(r@),
            CommandPlan::ShowDashboard => CommandPlanView::ShowDashboard,
            CommandPlan::SetAccessById { telegram_id, whitelisted } => CommandPlanView::SetAccessById(
                *telegram_id,
                *whitelisted,
            ),
            CommandPlan::SetAccessByUsername { username, whitelisted } =>
                CommandPlanView::SetAccessByUsername(username@, *whitelisted),
            CommandPlan::Report(w) => CommandPlanView::Report(*w),
        }
    }
}

/// How a whitelist or blacklist target is read: a number is a Telegram id; anything else
/// is a username, without the "@" signs it starts with.
pub open spec fn access_plan(target: Seq<char>, whitelisted: bool) -> CommandPlanView {
    match parsed_i64(target) {
        Some(id) => CommandPlanView::SetAccessById(id, whitelisted),
        None => CommandPlanView::SetAccessByUsername(strip_leading(target, '@'), whitelisted),
    }
}

/// The number of days that a report period covers (given in lower case): one for "daily"
/// and "hari ini", seven for "weekly" and "mingguan", thirty for "monthly", "bulanan" and
/// anything else.
pub open spec fn report_days(period: Seq<char>) -> u32 {
    if period == "daily"@ || period == "hari ini"@ {
        1
    } else if period == "weekly"@ || period == "mingguan"@ {
        7
    } else {
        30
    }
}

/// What the bot does about a command from a user (`None` where looking the user up failed),
/// with texts in the language of `lang_code`.
pub open spec fn command_plan_of(cmd: CommandView, user: Option<UserAccess>, lang_code: Seq<char>) -> CommandPlanView {
    match user {
        None => CommandPlanView::Send(plain("Internal database error."@)),
        Some(u) => match cmd {
            CommandView::Start => if u.is_admin || u.is_whitelisted {
                CommandPlanView::ShowDashboard
            } else {
                CommandPlanView::Send(
                    ReplyView {
                        text: text_for("not_whitelisted"@, lang_code, ""@, "0.00"@),
                        menu: Menu::AccessRequest,
                        html: true,
                    },
                )
            },
            CommandView::Whitelist(t) => if !u.is_admin {
                CommandPlanView::Send(plain("You are not authorized to use this command."@))
            } else {
                access_plan(t, true)
            },
            CommandView::Blacklist(t) => if !u.is_admin {
                CommandPlanView::Send(plain("You are not authorized to use this command."@))
            } else {
                access_plan(t, false)
            },
            CommandView::Report(p) => if !u.is_whitelisted {
                CommandPlanView::Send(plain("You are not whitelisted."@))
            } else {
                CommandPlanView::Report(ReportWindow::LastDays(report_days(lowercase_of(p))))
            },
        },
    }
}

fn plan_access(target: &String, whitelisted: bool) -> (res: CommandPlan)
    ensures
        res@ == access_plan(target@, whitelisted),
{
    match parse_i64(target.as_str()) {
        Some(telegram_id) => CommandPlan::SetAccessById { telegram_id, whitelisted },
        None => {
            let chars = chars_of(target.as_str());
            let stripped = strip_leading_char(&chars, '@');
            CommandPlan::SetAccessByUsername { username: string_of(&stripped), whitelisted }
        },
    }
}

/// The number of days that a report period covers.
pub fn report_period_days(period: &str) -> (res: u32)
    ensures
        res == report_days(lowercase_of(period@)),
{
    let lower = to_lowercase(period);
    let p = lower.as_str();
    if str_equal(p, "daily") || str_equal(p, "hari ini") {
        1
    } else if str_equal(p, "weekly") || str_equal(p, "mingguan") {
        7
    } else {
        30
    }
}

/// Decides what to do about a command from a user (`None` where looking the user up
/// failed): who may see the dashboard, change access, or get a report.
pub fn plan_command(cmd: &Command, user: Option<UserAccess>, lang_code: &str) -> (res: CommandPlan)
    ensures
        res@ == command_plan_of(cmd@, user, lang_code@),
{
    match user {
        None => CommandPlan::Send(plain_reply("Internal database error.")),
        Some(u) => match cmd {
            Command::Start => if u.is_admin || u.is_whitelisted {
                CommandPlan::ShowDashboard
            } else {
                CommandPlan::Send(
                    Reply {
                        text: get_text("not_whitelisted", lang_code, "", "0.00"),
                        menu: Menu::AccessRequest,
                        html: true,
                    },
                )
            },
            Command::Whitelist(t) => if !u.is_admin {
                CommandPlan::Send(plain_reply("You are not authorized to use this command."))
            } else {
                plan_access(t, true)
            },
            Command::Blacklist(t) => if !u.is_admin {
                CommandPlan::Send(plain_reply("You are not authorized to use this command."))
            } else {
                plan_access(t, false)
            },
            Command::Report(p) => if !u.is_whitelisted {
                CommandPlan::Send(plain_reply("You are not whitelisted."))
            } else {
                CommandPlan::Report(ReportWindow::LastDays(report_period_days(p.as_str())))
            },
        },
    }
}


/// The answer to a whitelist (or blacklist) by Telegram id: success, or the database error.
pub open spec fn access_by_id_text(telegram_id: i64, whitelisted: bool, error: Option<Seq<char>>) -> Seq<char> {
    match error {
        Some(e) => "Error database: "@ + e,
        None => "Berhasil! User ID "@ + i64_text(telegram_id as int) + (if whitelisted {
            " sekarang di-whitelist."@
        } else {
            " sekarang di-blacklist."@
        }),
    }
}

/// The answer to a whitelist (or blacklist) by username: success, no such user, or the
/// database error.
pub open spec fn access_by_username_text(username: Seq<char>, whitelisted: bool, outcome: Result<bool, Seq<char>>) -> Seq<char> {
    match outcome {
        Ok(true) => "Berhasil! User @"@ + username + (if whitelisted {
            " sekarang di-whitelist."@
        } else {
            " sekarang di-blacklist."@
        }),
        Ok(false) => "Gagal. User @"@ + username + (if whitelisted {
            " tidak ditemukan di database. Pastikan ia sudah menekan /start."@
        } else {
            " tidak ditemukan di database. Pastikan orang tersebut sudah mengeklik /start ke bot ini minimal 1 kali."@
        }),
        Err(e) => "Error database: "@ + e,
    }
}

/// Answers a whitelist (or blacklist) by Telegram id; `error` is the database error, if any.
pub fn access_by_id_reply(telegram_id: i64, whitelisted: bool, error: Option<&str>) -> (res: String)
    ensures
        res@ == access_by_id_text(telegram_id, whitelisted, error.deep_view()),
{
    match error {
        Some(e) => {
            let mut s = String::from_str("Error database: ");
            s.append(e);
            s
        },
        None => {
            let mut s = String::from_str("Berhasil! User ID ");
            let id = format_i64(telegram_id);
            s.append(id.as_str());
            if whitelisted {
                s.append(" sekarang di-whitelist.");
            } else {
                s.append(" sekarang di-blacklist.");
            }
            s
        },
    }
}

/// Answers a whitelist (or blacklist) by username: `Ok(true)` where the user was updated,
/// `Ok(false)` where no user has that name, `Err` with the database error.
pub fn access_by_username_reply(username: &str, whitelisted: bool, outcome: &Result<bool, String>) -> (res: String)
    ensures
        res@ == access_by_username_text(
            username@,
            whitelisted,
            match outcome {
                Ok(b) => Ok(*b),
                Err(e) => Err(e@),
            },
        ),
{
    match outcome {
        Ok(true) => {
            let mut s = String::from_str("Berhasil! User @");
            s.append(username);
            if whitelisted {
                s.append(" sekarang di-whitelist.");
            } else {
                s.append(" sekarang di-blacklist.");
            }
            s
        },
        Ok(false) => {
            let mut s = String::from_str("Gagal. User @");
            s.append(username);
            if whitelisted {
                s.append(" tidak ditemukan di database. Pastikan ia sudah menekan /start.");
            } else {
                s.append(
                    " tidak ditemukan di database. Pastikan orang tersebut sudah mengeklik /start ke bot ini minimal 1 kali.",
                );
            }
            s
        },
        Err(e) => {
            let mut s = String::from_str("Error database: ");
            s.append(e.as_str());
            s
        },
    }
}

/// The answer to /report: the total (already written out), or the database error.
pub open spec fn report_text(outcome: Result<Seq<char>, Seq<char>>) -> Seq<char> {
    match outcome {
        Ok(total) => "Total expenses for the selected period: Rp "@ + total,
        Err(e) => "Error calculating report: "@ + e,
    }
}

/// Answers /report with the total (already written out) or the database error.
pub fn report_reply(outcome: &Result<String, String>) -> (res: String)
    ensures
        res@ == report_text(
            match outcome {
                Ok(t) => Ok(t@),
                Err(e) => Err(e@),
            },
        ),
{
    match outcome {
        Ok(total) => {
            let mut s = String::from_str("Total expenses for the selected period: Rp ");
            s.append(total.as_str());
            s
        },
        Err(e) => {
            let mut s = String::from_str("Error calculating report: ");
            s.append(e.as_str());
            s
        },
    }
}

// ---------------------------------------------------------------------------
// The dashboard
// ---------------------------------------------------------------------------

/// The dashboard: the greeting with the user's first name ("pengguna" where it is unknown)
/// and the month's total, with the dashboard menu.
pub open spec fn dashboard_view(lang_code: Seq<char>, first_name: Option<Seq<char>>, total: Seq<char>) -> ReplyView {
    let name = match first_name {
        Some(n) => n,
        None => "pengguna"@,
    };
    ReplyView {
        text: text_for("dashboard_text"@, lang_code, name, total),
        menu: Menu::Dashboard,
        html: true,
    }
}

/// Builds the dashboard for a user; `total` is the month's total written with two decimals.
pub fn dashboard_reply(lang_code: &str, first_name: Option<&str>, total: &str) -> (res: Reply)
    ensures
        res@ == dashboard_view(lang_code@, first_name.deep_view(), total@),
{
    let text = match first_name {
        Some(n) => get_text("dashboard_text", lang_code, n, total),
        None => get_text("dashboard_text", lang_code, "pengguna", total),
    };
    Reply { text, menu: Menu::Dashboard, html: true }
}

// ---------------------------------------------------------------------------
// Free-text messages
// ---------------------------------------------------------------------------

/// What the bot does about a free-text message.
pub enum MessagePlan {
    /// Do nothing (looking the user up failed).
    Ignore,
    /// Send this text and stop.
    Send(String),
    /// Read the message as an expense.
    ReadExpense,
}

/// Whether the bot reads a message as an expense, turns the user away, or stays silent
/// (where looking the user up failed): administrators and whitelisted users may record.
pub open spec fn message_plan_ok(res: MessagePlan, user: Option<UserAccess>) -> bool {
    match user {
        None => res is Ignore,
        Some(u) => if !u.is_admin && !u.is_whitelisted {
            res matches MessagePlan::Send(t) && t@ == "You are not whitelisted to record expenses."@
        } else {
            res is ReadExpense
        },
    }
}

/// Decides what to do about a free-text message from a user (`None` where looking the user
/// up failed).
pub fn plan_message(user: Option<UserAccess>) -> (res: MessagePlan)
    ensures
        message_plan_ok(res, user),
{
    match user {
        None => MessagePlan::Ignore,
        Some(u) => if !u.is_admin && !u.is_whitelisted {
            MessagePlan::Send(String::from_str("You are not whitelisted to record expenses."))
        } else {
            MessagePlan::ReadExpense
        },
    }
}

/// Answers a message that could not be parsed.
pub fn parse_failure_reply(detail: &str) -> (res: String)
    ensures
        res@ == "Failed to parse message: "@ + detail@,
{
    let mut s = String::from_str("Failed to parse message: ");
    s.append(detail);
    s
}

/// What the bot does with a parsed expense.
pub enum ExpensePlan {
    /// Send this text and stop.
    Send(String),
    /// Store the expense under this item name and category group.
    Record { item_name: String, category_group: String },
}

/// `name` unless it is blank, else `fallback`.
pub open spec fn or_default(name: Seq<char>, fallback: Seq<char>) -> Seq<char> {
    if trimmed(name).len() == 0 {
        fallback
    } else {
        name
    }
}

/// What the bot does with a parsed expense: an amount of zero is turned away; otherwise the
/// expense is stored, a blank item name becoming "Tanpa Nama" and a blank category "other".
pub open spec fn expense_plan_ok(res: ExpensePlan, item_name: Seq<char>, category_group: Seq<char>, amount_is_zero: bool) -> bool {
    if amount_is_zero {
        res matches ExpensePlan::Send(t) && t@ == "Sorry, I couldn't detect an amount."@
    } else {
        res matches ExpensePlan::Record { item_name: i, category_group: c } && i@ == or_default(
            item_name,
            "Tanpa Nama"@,
        ) && c@ == or_default(category_group, "other"@)
    }
}

fn or_default_text(name: &String, fallback: &str) -> (res: String)
    ensures
        res@ == or_default(name@, fallback@),
{
    let chars = chars_of(name.as_str());
    let t = trim(&chars);
    if t.len() == 0 {
        String::from_str(fallback)
    } else {
        name.clone()
    }
}

/// Decides what to do with a parsed expense; `amount_is_zero` tells whether its amount
/// came to zero.
pub fn plan_expense(parsed: &ParsedExpense, amount_is_zero: bool) -> (res: ExpensePlan)
    ensures
        expense_plan_ok(res, parsed.item_name@, parsed.category_group@, amount_is_zero),
{
    if amount_is_zero {
        ExpensePlan::Send(String::from_str("Sorry, I couldn't detect an amount."))
    } else {
        ExpensePlan::Record {
            item_name: or_default_text(&parsed.item_name, "Tanpa Nama"),
            category_group: or_default_text(&parsed.category_group, "other"),
        }
    }
}

/// The confirmation of a stored expense: its item name and category without surrounding
/// white space, and the amount as written out.
pub open spec fn recorded_text(item_name: Seq<char>, amount: Seq<char>, category_group: Seq<char>) -> Seq<char> {
    "Recorded! Item Name: "@ + trimmed(item_name) + ", Amount: Rp "@ + amount + ", Category: "@
        + trimmed(category_group)
}

/// Confirms a stored expense; `amount` is the amount written out.
pub fn recorded_reply(parsed: &ParsedExpense, amount: &str) -> (res: String)
    ensures
        res@ == recorded_text(parsed.item_name@, amount@, parsed.category_group@),
{
    let item = trim(&chars_of(parsed.item_name.as_str()));
    let category = trim(&chars_of(parsed.category_group.as_str()));
    let mut s = String::from_str("Recorded! Item Name: ");
    s.append(string_of(&item).as_str());
    s.append(", Amount: Rp ");
    s.append(amount);
    s.append(", Category: ");
    s.append(string_of(&category).as_str());
    s
}

/// Answers an expense that could not be stored.
pub fn store_failure_reply(detail: &str) -> (res: String)
    ensures
        res@ == "Database error: "@ + detail@,
{
    let mut s = String::from_str("Database error: ");
    s.append(detail);
    s
}

// ---------------------------------------------------------------------------
// Button presses
// ---------------------------------------------------------------------------

/// What the bot does about a pressed button.
pub enum CallbackPlan {
    /// Looking the user up failed: log the error and do nothing more.
    LookupFailed,
    /// Total the user's expenses since the start of this window and show it under this
    /// text key.
    Report { window: ReportWindow, text_key: String },
    /// Show the dashboard again.
    Dashboard,
    /// Do nothing.
    Nothing,
}

/// The content of a button plan.
pub enum CallbackPlanView {
    LookupFailed,
    Report(ReportWindow, Seq<char>),
    Dashboard,
    Nothing,
}

impl View for CallbackPlan {
    type V = CallbackPlanView;

    open spec fn view(&self) -> CallbackPlanView {
        match self {
            CallbackPlan::LookupFailed => CallbackPlanView::LookupFailed,
            CallbackPlan::Report { window, text_key } => CallbackPlanView::Report(*window, text_key@),
            CallbackPlan::Dashboard => CallbackPlanView::Dashboard,
            CallbackPlan::Nothing => CallbackPlanView::Nothing,
        }
    }
}

/// What the bot does about a button's data: "report_daily" reports since midnight,
/// "report_weekly" the last seven days, "report_monthly" since the first of the month;
/// "back_to_dashboard" shows the dashboard; anything else (such as "feedback") does nothing.
pub open spec fn callback_plan_of(data: Seq<char>) -> CallbackPlanView {
    if data == "report_daily"@ {
        CallbackPlanView::Report(ReportWindow::StartOfToday, "report_daily"@)
    } else if data == "report_weekly"@ {
        CallbackPlanView::Report(ReportWindow::LastDays(7), "report_weekly"@)
    } else if data == "report_monthly"@ {
        CallbackPlanView::Report(ReportWindow::StartOfMonth, "report_monthly"@)
    } else if data == "back_to_dashboard"@ {
        CallbackPlanView::Dashboard
    } else {
        CallbackPlanView::Nothing
    }
}

/// What the bot does about a pressed button from a user (`None` where looking the user up
/// failed): a failed lookup stops everything; otherwise the button's data decides.
pub open spec fn button_plan_of(user: Option<UserAccess>, data: Seq<char>) -> CallbackPlanView {
    match user {
        None => CallbackPlanView::LookupFailed,
        Some(_) => callback_plan_of(data),
    }
}

/// Decides what to do about a pressed button.
pub fn plan_callback(data: &str) -> (res: CallbackPlan)
    ensures
        res@ == callback_plan_of(data@),
{
    if str_equal(data, "report_daily") {
        CallbackPlan::Report { window: ReportWindow::StartOfToday, text_key: String::from_str("report_daily") }
    } else if str_equal(data, "report_weekly") {
        CallbackPlan::Report { window: ReportWindow::LastDays(7), text_key: String::from_str("report_weekly") }
    } else if str_equal(data, "report_monthly") {
        CallbackPlan::Report { window: ReportWindow::StartOfMonth, text_key: String::from_str("report_monthly") }
    } else if str_equal(data, "back_to_dashboard") {
        CallbackPlan::Dashboard
    } else {
        CallbackPlan::Nothing
    }
}

/// Decides what to do about a pressed button from a user (`None` where looking the user up
/// failed).
pub fn plan_button_press(user: Option<UserAccess>, data: &str) -> (res: CallbackPlan)
    ensures
        res@ == button_plan_of(user, data@),
{
    match user {
        None => CallbackPlan::LookupFailed,
        Some(_) => plan_callback(data),
    }
}

/// A report shown in place of the dashboard: the text of `text_key` with the total, and a
/// button back to the dashboard.
pub open spec fn report_screen_view(text_key: Seq<char>, lang_code: Seq<char>, total: Seq<char>) -> ReplyView {
    ReplyView { text: text_for(text_key, lang_code, ""@, total), menu: Menu::BackToDashboard, html: true }
}

/// Builds the report shown in place of the dashboard; `total` is written with two decimals.
pub fn report_screen(text_key: &str, lang_code: &str, total: &str) -> (res: Reply)
    ensures
        res@ == report_screen_view(text_key@, lang_code@, total@),
{
    Reply { text: get_text(text_key, lang_code, "", total), menu: Menu::BackToDashboard, html: true }
}


// ---------------------------------------------------------------------------
// Laws
// ---------------------------------------------------------------------------

/// Only administrators change who is whitelisted: /whitelist and /blacklist from anyone
/// else are refused and change nothing.
pub proof fn lemma_only_admins_change_access(target: Seq<char>, user: UserAccess, lang_code: Seq<char>)
    requires
        !user.is_admin,
    ensures
        command_plan_of(CommandView::Whitelist(target), Some(user), lang_code)
            == CommandPlanView::Send(plain("You are not authorized to use this command."@)),
        command_plan_of(CommandView::Blacklist(target), Some(user), lang_code)
            == CommandPlanView::Send(plain("You are not authorized to use this command."@)),
{
}

/// /start shows the dashboard exactly to administrators and whitelisted users.
pub proof fn lemma_dashboard_only_for_members(user: UserAccess, lang_code: Seq<char>)
    ensures
        (command_plan_of(CommandView::Start, Some(user), lang_code) == CommandPlanView::ShowDashboard)
            == (user.is_admin || user.is_whitelisted),
{
}

/// /report is answered only for whitelisted users; an administrator who is not whitelisted
/// is refused too.
pub proof fn lemma_reports_only_for_whitelisted(period: Seq<char>, user: UserAccess, lang_code: Seq<char>)
    ensures
        (command_plan_of(CommandView::Report(period), Some(user), lang_code) is Report)
            == user.is_whitelisted,
{
}

/// For an administrator, /whitelist and /blacklist read the same target the same way and
/// differ only in the flag that they set.
pub proof fn lemma_whitelist_blacklist_mirror(target: Seq<char>, user: UserAccess, lang_code: Seq<char>)
    requires
        user.is_admin,
    ensures
        match (
            command_plan_of(CommandView::Whitelist(target), Some(user), lang_code),
            command_plan_of(CommandView::Blacklist(target), Some(user), lang_code),
        ) {
            (CommandPlanView::SetAccessById(a, true), CommandPlanView::SetAccessById(b, false)) => a
                == b,
            (
                CommandPlanView::SetAccessByUsername(a, true),
                CommandPlanView::SetAccessByUsername(b, false),
            ) => a == b,
            _ => false,
        },
{
}

/// An administrator who names a user by the decimal Telegram id (as the bot writes it)
/// reaches exactly that id.
pub proof fn lemma_whitelist_by_written_id(telegram_id: i64, user: UserAccess, lang_code: Seq<char>)
    requires
        user.is_admin,
    ensures
        command_plan_of(CommandView::Whitelist(i64_text(telegram_id as int)), Some(user), lang_code)
            == CommandPlanView::SetAccessById(telegram_id, true),
        command_plan_of(CommandView::Blacklist(i64_text(telegram_id as int)), Some(user), lang_code)
            == CommandPlanView::SetAccessById(telegram_id, false),
{
    lemma_parse_format_roundtrip(telegram_id);
}

/// A username target never keeps a leading "@".
pub proof fn lemma_username_target_without_at(target: Seq<char>, whitelisted: bool)
    ensures
        access_plan(target, whitelisted) matches CommandPlanView::SetAccessByUsername(name, _) ==> (
        name.len() == 0 || name[0] != '@'),
{
    lemma_strip_leading_removes_all(target, '@');
}

/// An expense is never stored under a blank item name or category group.
pub proof fn lemma_stored_names_not_blank(item_name: Seq<char>, category_group: Seq<char>)
    ensures
        trimmed(or_default(item_name, "Tanpa Nama"@)).len() > 0,
        trimmed(or_default(category_group, "other"@)).len() > 0,
{
    reveal_strlit("Tanpa Nama");
    reveal_strlit("other");
    assert(trimmed("Tanpa Nama"@) == "Tanpa Nama"@);
    assert(trimmed("other"@) == "other"@);
}


/// The screen that a command plan leads to, for a sender with this first name and language
/// and this month's total: the dashboard where the plan is to show it.
pub open spec fn screen_after_command(
    plan: CommandPlanView,
    lang_code: Seq<char>,
    first_name: Seq<char>,
    total: Seq<char>,
) -> Option<ReplyView> {
    match plan {
        CommandPlanView::ShowDashboard => Some(dashboard_view(lang_code, Some(first_name), total)),
        CommandPlanView::Send(r) => Some(r),
        _ => None,
    }
}

/// The screen that a button plan leads to, for a sender with this first name and language
/// and this month's total: the dashboard where the plan is to show it again.
pub open spec fn screen_after_button(
    plan: CallbackPlanView,
    lang_code: Seq<char>,
    first_name: Seq<char>,
    total: Seq<char>,
) -> Option<ReplyView> {
    match plan {
        CallbackPlanView::Dashboard => Some(dashboard_view(lang_code, Some(first_name), total)),
        _ => None,
    }
}

/// For an administrator or whitelisted user, "back to dashboard" shows again exactly the
/// dashboard that /start shows: the same greeting with the same name and total, the same
/// keyboard, as HTML.
pub proof fn lemma_back_to_dashboard_repeats_start(
    user: UserAccess,
    lang_code: Seq<char>,
    first_name: Seq<char>,
    total: Seq<char>,
)
    requires
        user.is_admin || user.is_whitelisted,
    ensures
        command_plan_of(CommandView::Start, Some(user), lang_code) == CommandPlanView::ShowDashboard,
        button_plan_of(Some(user), "back_to_dashboard"@) == CallbackPlanView::Dashboard,
        screen_after_button(
            button_plan_of(Some(user), "back_to_dashboard"@),
            lang_code,
            first_name,
            total,
        ) == screen_after_command(
            command_plan_of(CommandView::Start, Some(user), lang_code),
            lang_code,
            first_name,
            total,
        ),
        screen_after_command(
            command_plan_of(CommandView::Start, Some(user), lang_code),
            lang_code,
            first_name,
            total,
        ) == Some(dashboard_view(lang_code, Some(first_name), total)),
{
    reveal_strlit("back_to_dashboard");
    reveal_strlit("report_daily");
    reveal_strlit("report_weekly");
    reveal_strlit("report_monthly");
    assert("back_to_dashboard"@ != "report_daily"@) by {
        assert("back_to_dashboard"@.len() != "report_daily"@.len());
    }
    assert("back_to_dashboard"@ != "report_weekly"@) by {
        assert("back_to_dashboard"@.len() != "report_weekly"@.len());
    }
    assert("back_to_dashboard"@ != "report_monthly"@) by {
        assert("back_to_dashboard"@.len() != "report_monthly"@.len());
    }
}


/// Every administrator and every whitelisted user may record expenses, and only a user who
/// is neither is turned away; a failed lookup leads to silence.
pub proof fn lemma_recording_is_for_admins_and_whitelisted(res: MessagePlan, user: Option<UserAccess>)
    requires
        message_plan_ok(res, user),
    ensures
        user matches Some(u) ==> ((res is ReadExpense) <==> (u.is_admin || u.is_whitelisted)),
        user matches Some(u) ==> (!u.is_admin && !u.is_whitelisted <==> res is Send),
        user is None ==> res is Ignore,
{
}

/// A parsed expense with a non-blank item name (or category group) is stored under exactly
/// that name (or group); only a blank one is replaced, by "Tanpa Nama" (or "other"). An
/// amount of zero stores nothing.
pub proof fn lemma_non_blank_names_are_stored_unchanged(
    res: ExpensePlan,
    item_name: Seq<char>,
    category_group: Seq<char>,
    amount_is_zero: bool,
)
    requires
        expense_plan_ok(res, item_name, category_group, amount_is_zero),
    ensures
        amount_is_zero <==> res is Send,
        res matches ExpensePlan::Record { item_name: i, category_group: c } ==> {
            &&& trimmed(item_name).len() > 0 ==> i@ == item_name
            &&& trimmed(item_name).len() == 0 ==> i@ == "Tanpa Nama"@
            &&& trimmed(category_group).len() > 0 ==> c@ == category_group
            &&& trimmed(category_group).len() == 0 ==> c@ == "other"@
        },
{
}

/// Once the user is found, what a button does depends on its data alone: any two users who
/// press the same button get the same plan, the plan that the data calls for.
pub proof fn lemma_button_plan_ignores_the_user(u1: UserAccess, u2: UserAccess, data: Seq<char>)
    ensures
        button_plan_of(Some(u1), data) == button_plan_of(Some(u2), data),
        button_plan_of(Some(u1), data) == callback_plan_of(data),
        button_plan_of(None, data) == CallbackPlanView::LookupFailed,
{
}

/// The dashboard's report buttons speak the caller's language: English labels for a code
/// that does not start with "id", Indonesian ones for a code that does; they send
/// "report_daily" and "report_weekly".
pub proof fn lemma_dashboard_buttons_in_callers_language(lang_code: Seq<char>)
    ensures
        menu_rows(Menu::Dashboard, lang_code).len() == 2,
        menu_rows(Menu::Dashboard, lang_code)[0].len() == 2,
        !is_indonesian(lang_code) ==> menu_rows(Menu::Dashboard, lang_code)[0] == seq![
            ButtonView::Callback { label: "\u{1f4ca} Daily Report"@, data: "report_daily"@ },
            ButtonView::Callback { label: "\u{1f4ca} Weekly Report"@, data: "report_weekly"@ },
        ],
        is_indonesian(lang_code) ==> menu_rows(Menu::Dashboard, lang_code)[0] == seq![
            ButtonView::Callback { label: "\u{1f4ca} Laporan Harian"@, data: "report_daily"@ },
            ButtonView::Callback { label: "\u{1f4ca} Laporan Mingguan"@, data: "report_weekly"@ },
        ],
{
    reveal_strlit("btn_daily");
    reveal_strlit("btn_weekly");
    reveal_strlit("err_db");
    reveal_strlit("not_whitelisted");
    reveal_strlit("not_authorized");
    reveal_strlit("dashboard_text");
    assert("btn_daily"@.len() == 9 && "btn_weekly"@.len() == 10);
    assert("err_db"@.len() == 6 && "not_whitelisted"@.len() == 15);
    assert("not_authorized"@.len() == 14 && "dashboard_text"@.len() == 14);
    assert("btn_weekly"@ != "btn_daily"@) by {
        assert("btn_weekly"@.len() != "btn_daily"@.len());
    }
}

} // verus!
