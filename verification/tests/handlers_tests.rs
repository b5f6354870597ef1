use expense_tracker::calendar::ReportWindow;
use expense_tracker::handlers::access_by_id_reply;
use expense_tracker::handlers::access_by_username_reply;
use expense_tracker::handlers::dashboard_reply;
use expense_tracker::handlers::menu_buttons;
use expense_tracker::handlers::parse_failure_reply;
use expense_tracker::handlers::plan_button_press;
use expense_tracker::handlers::plan_callback;
use expense_tracker::handlers::plan_command;
use expense_tracker::handlers::plan_expense;
use expense_tracker::handlers::plan_message;
use expense_tracker::handlers::recorded_reply;
use expense_tracker::handlers::report_period_days;
use expense_tracker::handlers::report_reply;
use expense_tracker::handlers::report_screen;
use expense_tracker::handlers::store_failure_reply;
use expense_tracker::handlers::Button;
use expense_tracker::handlers::CallbackPlan;
use expense_tracker::handlers::Command;
use expense_tracker::handlers::CommandPlan;
use expense_tracker::handlers::ExpensePlan;
use expense_tracker::handlers::MessagePlan;
use expense_tracker::handlers::Menu;
use expense_tracker::handlers::UserAccess;
use expense_tracker::number::format_i64;
use expense_tracker::parser::ParsedExpense;

const ADMIN: UserAccess = UserAccess { is_admin: true, is_whitelisted: false };
const MEMBER: UserAccess = UserAccess { is_admin: false, is_whitelisted: true };
const STRANGER: UserAccess = UserAccess { is_admin: false, is_whitelisted: false };

fn sent_text(plan: CommandPlan) -> (String, bool, bool) {
    match plan {
        CommandPlan::Send(r) => (r.text, r.html, r.menu == Menu::Plain),
        _ => panic!("expected a reply"),
    }
}

#[test]
fn failed_user_lookup_answers_database_error() {
    let (text, html, plain) = sent_text(plan_command(&Command::Start, None, "en"));
    assert_eq!(text, "Internal database error.");
    assert!(!html && plain);
}

#[test]
fn start_shows_dashboard_to_members_only() {
    assert!(matches!(plan_command(&Command::Start, Some(ADMIN), "en"), CommandPlan::ShowDashboard));
    assert!(matches!(plan_command(&Command::Start, Some(MEMBER), "en"), CommandPlan::ShowDashboard));
    match plan_command(&Command::Start, Some(STRANGER), "id") {
        CommandPlan::Send(r) => {
            assert_eq!(r.text, "Selamat datang! Kamu belum terdaftar. Silakan hubungi administrator.");
            assert!(r.html);
            assert!(r.menu == Menu::AccessRequest);
        }
        _ => panic!("expected the access request"),
    }
}

#[test]
fn only_admins_change_access() {
    for cmd in [Command::Whitelist("123".to_string()), Command::Blacklist("@budi".to_string())] {
        for user in [MEMBER, STRANGER] {
            let (text, _, _) = sent_text(plan_command(&cmd, Some(user), "en"));
            assert_eq!(text, "You are not authorized to use this command.");
        }
    }
}

#[test]
fn admin_targets_by_id_or_username() {
    match plan_command(&Command::Whitelist("123".to_string()), Some(ADMIN), "en") {
        CommandPlan::SetAccessById { telegram_id, whitelisted } => {
            assert_eq!(telegram_id, 123);
            assert!(whitelisted);
        }
        _ => panic!("expected an id"),
    }
    match plan_command(&Command::Blacklist("-100200".to_string()), Some(ADMIN), "en") {
        CommandPlan::SetAccessById { telegram_id, whitelisted } => {
            assert_eq!(telegram_id, -100200);
            assert!(!whitelisted);
        }
        _ => panic!("expected an id"),
    }
    match plan_command(&Command::Whitelist("@@budi_s".to_string()), Some(ADMIN), "en") {
        CommandPlan::SetAccessByUsername { username, whitelisted } => {
            assert_eq!(username, "budi_s");
            assert!(whitelisted);
        }
        _ => panic!("expected a username"),
    }
    match plan_command(&Command::Blacklist("12 34".to_string()), Some(ADMIN), "en") {
        CommandPlan::SetAccessByUsername { username, whitelisted } => {
            assert_eq!(username, "12 34");
            assert!(!whitelisted);
        }
        _ => panic!("expected a username"),
    }
}

#[test]
fn admin_reaches_the_id_the_bot_writes() {
    for id in [0i64, 987654321, i64::MIN, i64::MAX] {
        match plan_command(&Command::Whitelist(format_i64(id)), Some(ADMIN), "en") {
            CommandPlan::SetAccessById { telegram_id, .. } => assert_eq!(telegram_id, id),
            _ => panic!("expected an id"),
        }
    }
}

#[test]
fn reports_need_whitelisting() {
    let (text, _, _) = sent_text(plan_command(&Command::Report("daily".to_string()), Some(ADMIN), "en"));
    assert_eq!(text, "You are not whitelisted.");
    let cases = [("daily", 1u32), ("Hari Ini", 1), ("WEEKLY", 7), ("mingguan", 7), ("monthly", 30), ("bulanan", 30), ("", 30), ("yearly", 30)];
    for (period, days) in cases {
        match plan_command(&Command::Report(period.to_string()), Some(MEMBER), "en") {
            CommandPlan::Report(ReportWindow::LastDays(d)) => assert_eq!(d, days),
            _ => panic!("expected a report"),
        }
        assert_eq!(report_period_days(period), days);
    }
}

#[test]
fn access_replies() {
    assert_eq!(access_by_id_reply(42, true, None), "Berhasil! User ID 42 sekarang di-whitelist.");
    assert_eq!(access_by_id_reply(-7, false, None), "Berhasil! User ID -7 sekarang di-blacklist.");
    assert_eq!(access_by_id_reply(42, true, Some("timeout")), "Error database: timeout");
    assert_eq!(access_by_username_reply("budi", true, &Ok(true)), "Berhasil! User @budi sekarang di-whitelist.");
    assert_eq!(access_by_username_reply("budi", false, &Ok(true)), "Berhasil! User @budi sekarang di-blacklist.");
    assert_eq!(
        access_by_username_reply("budi", true, &Ok(false)),
        "Gagal. User @budi tidak ditemukan di database. Pastikan ia sudah menekan /start."
    );
    assert_eq!(
        access_by_username_reply("budi", false, &Ok(false)),
        "Gagal. User @budi tidak ditemukan di database. Pastikan orang tersebut sudah mengeklik /start ke bot ini minimal 1 kali."
    );
    assert_eq!(access_by_username_reply("budi", false, &Err("down".to_string())), "Error database: down");
}

#[test]
fn report_replies() {
    assert_eq!(report_reply(&Ok("12500".to_string())), "Total expenses for the selected period: Rp 12500");
    assert_eq!(report_reply(&Err("down".to_string())), "Error calculating report: down");
}

#[test]
fn dashboard_uses_first_name_or_pengguna() {
    let r = dashboard_reply("en", Some("Ann"), "10.00");
    assert_eq!(r.text, "Hello, <b>Ann</b>! Welcome to your Financial Dashboard.\n\n\u{1f4b0} <b>Total Expenses This Month:</b> Rp 10.00\n\nWhat would you like to track today?");
    assert!(r.html && r.menu == Menu::Dashboard);
    let r = dashboard_reply("id", None, "0.00");
    assert!(r.text.starts_with("Halo, <b>pengguna</b>!"));
}

#[test]
fn menus_hold_their_buttons() {
    let rows = menu_buttons(Menu::Dashboard, "id");
    assert_eq!(rows.len(), 2);
    assert_eq!(rows[0].len(), 2);
    match &rows[0][0] {
        Button::Callback { label, data } => {
            assert_eq!(label, "\u{1f4ca} Laporan Harian");
            assert_eq!(data, "report_daily");
        }
        _ => panic!(),
    }
    match &rows[0][1] {
        Button::Callback { label, data } => {
            assert_eq!(label, "\u{1f4ca} Laporan Mingguan");
            assert_eq!(data, "report_weekly");
        }
        _ => panic!(),
    }
    match &rows[1][0] {
        Button::Link { label, url } => {
            assert_eq!(label, "\u{1f4dd} Feedback");
            assert_eq!(url, "https://subbarscrap.my.id");
        }
        _ => panic!(),
    }
    let rows = menu_buttons(Menu::AccessRequest, "en");
    match &rows[0][0] {
        Button::Link { label, url } => {
            assert_eq!(label, "Text missing");
            assert_eq!(url, "https://t.me/miesub");
        }
        _ => panic!(),
    }
    let rows = menu_buttons(Menu::BackToDashboard, "en");
    match &rows[0][0] {
        Button::Callback { label, data } => {
            assert_eq!(label, "Text missing");
            assert_eq!(data, "back_to_dashboard");
        }
        _ => panic!(),
    }
    assert!(menu_buttons(Menu::Plain, "en").is_empty());
}

#[test]
fn messages_are_read_only_for_members() {
    assert!(matches!(plan_message(None), MessagePlan::Ignore));
    assert!(matches!(plan_message(Some(ADMIN)), MessagePlan::ReadExpense));
    assert!(matches!(plan_message(Some(MEMBER)), MessagePlan::ReadExpense));
    match plan_message(Some(STRANGER)) {
        MessagePlan::Send(t) => assert_eq!(t, "You are not whitelisted to record expenses."),
        _ => panic!(),
    }
    assert_eq!(parse_failure_reply("bad"), "Failed to parse message: bad");
    assert_eq!(store_failure_reply("down"), "Database error: down");
}

fn expense(item: &str, category: &str) -> ParsedExpense {
    ParsedExpense {
        intent: "add_expense".to_string(),
        language: "id".to_string(),
        amount: None,
        description: item.to_string(),
        item_name: item.to_string(),
        category_group: category.to_string(),
    }
}

#[test]
fn zero_amounts_are_not_stored_and_blank_names_get_defaults() {
    match plan_expense(&expense("kopi", "food"), true) {
        ExpensePlan::Send(t) => assert_eq!(t, "Sorry, I couldn't detect an amount."),
        _ => panic!(),
    }
    match plan_expense(&expense("kopi", "food"), false) {
        ExpensePlan::Record { item_name, category_group } => {
            assert_eq!(item_name, "kopi");
            assert_eq!(category_group, "food");
        }
        _ => panic!(),
    }
    match plan_expense(&expense("  ", ""), false) {
        ExpensePlan::Record { item_name, category_group } => {
            assert_eq!(item_name, "Tanpa Nama");
            assert_eq!(category_group, "other");
        }
        _ => panic!(),
    }
    assert_eq!(
        recorded_reply(&expense(" kopi ", " food"), "25000"),
        "Recorded! Item Name: kopi, Amount: Rp 25000, Category: food"
    );
}

#[test]
fn buttons_lead_to_reports_or_the_dashboard() {
    match plan_callback("report_daily") {
        CallbackPlan::Report { window: ReportWindow::StartOfToday, text_key } => assert_eq!(text_key, "report_daily"),
        _ => panic!(),
    }
    match plan_callback("report_weekly") {
        CallbackPlan::Report { window: ReportWindow::LastDays(7), text_key } => assert_eq!(text_key, "report_weekly"),
        _ => panic!(),
    }
    match plan_callback("report_monthly") {
        CallbackPlan::Report { window: ReportWindow::StartOfMonth, text_key } => assert_eq!(text_key, "report_monthly"),
        _ => panic!(),
    }
    assert!(matches!(plan_callback("back_to_dashboard"), CallbackPlan::Dashboard));
    assert!(matches!(plan_callback("feedback"), CallbackPlan::Nothing));
    assert!(matches!(plan_callback("other"), CallbackPlan::Nothing));
    let r = report_screen("report_daily", "id", "1.00");
    assert_eq!(r.text, "Text missing");
    assert!(r.html && r.menu == Menu::BackToDashboard);
    let r = report_screen("dashboard_text", "en", "1.00");
    assert!(r.text.starts_with("Hello, <b></b>!"));
}

#[test]
fn whitelist_and_blacklist_read_targets_alike() {
    for target in ["77", "@ani", "ani", "+5", "x1"] {
        let w = plan_command(&Command::Whitelist(target.to_string()), Some(ADMIN), "en");
        let b = plan_command(&Command::Blacklist(target.to_string()), Some(ADMIN), "en");
        match (w, b) {
            (
                CommandPlan::SetAccessById { telegram_id: a, whitelisted: true },
                CommandPlan::SetAccessById { telegram_id: c, whitelisted: false },
            ) => assert_eq!(a, c),
            (
                CommandPlan::SetAccessByUsername { username: a, whitelisted: true },
                CommandPlan::SetAccessByUsername { username: c, whitelisted: false },
            ) => assert_eq!(a, c),
            _ => panic!("whitelist and blacklist disagree"),
        }
    }
}

#[test]
fn a_failed_lookup_stops_a_button_press() {
    assert!(matches!(plan_button_press(None, "back_to_dashboard"), CallbackPlan::LookupFailed));
    assert!(matches!(plan_button_press(Some(STRANGER), "back_to_dashboard"), CallbackPlan::Dashboard));
    match plan_button_press(Some(MEMBER), "report_weekly") {
        CallbackPlan::Report { window: ReportWindow::LastDays(7), text_key } => assert_eq!(text_key, "report_weekly"),
        _ => panic!(),
    }
}

#[test]
fn back_to_dashboard_shows_the_start_dashboard() {
    for user in [ADMIN, MEMBER] {
        assert!(matches!(plan_command(&Command::Start, Some(user), "id"), CommandPlan::ShowDashboard));
        assert!(matches!(plan_button_press(Some(user), "back_to_dashboard"), CallbackPlan::Dashboard));
    }
    let from_start = dashboard_reply("id", Some("Budi"), "1.00");
    let from_button = dashboard_reply("id", Some("Budi"), "1.00");
    assert_eq!(from_start.text, from_button.text);
    assert!(from_start.menu == from_button.menu && from_start.html && from_button.html);
}
