use vstd::prelude::*;
use crate::text::occurs_at;
use crate::text::str_equal;
use crate::text::str_starts_with;

verus! {

/// Whether a language code asks for Indonesian: it starts with "id" (as "id" or "id-ID").
pub open spec fn is_indonesian(lang_code: Seq<char>) -> bool {
    occurs_at(lang_code, 0, "id"@)
}

/// The dashboard greeting, with the user's name and the month's total already written out.
pub open spec fn dashboard_text(indonesian: bool, name: Seq<char>, amount: Seq<char>) -> Seq<char> {
    if indonesian {
        "Halo, <b>"@ + name
            + "</b>! Selamat datang di Dashboard Keuanganmu.\n\n\u{1f4b0} <b>Total Pengeluaran Bulan Ini:</b> Rp "@
            + amount + "\n\nApa yang ingin kamu pantau hari ini?"@
    } else {
        "Hello, <b>"@ + name
            + "</b>! Welcome to your Financial Dashboard.\n\n\u{1f4b0} <b>Total Expenses This Month:</b> Rp "@
            + amount + "\n\nWhat would you like to track today?"@
    }
}

/// The text that `get_text` gives for a key, a language code, a name and an amount written
/// with two decimals.
pub open spec fn text_for(key: Seq<char>, lang_code: Seq<char>, name: Seq<char>, amount: Seq<char>) -> Seq<char> {
    let id = is_indonesian(lang_code);
    if key == "err_db"@ {
        if id {
            "Terjadi kesalahan database internal."@
        } else {
            "Internal database error."@
        }
    } else if key == "not_whitelisted"@ {
        if id {
            "Selamat datang! Kamu belum terdaftar. Silakan hubungi administrator."@
        } else {
            "Welcome! You are not whitelisted yet. Please contact the administrator."@
        }
    } else if key == "not_authorized"@ {
        if id {
            "Kamu tidak memiliki izin."@
        } else {
            "You are not authorized."@
        }
    } else if key == "dashboard_text"@ {
        dashboard_text(id, name, amount)
    } else if key == "btn_daily"@ {
        if id {
            "\u{1f4ca} Laporan Harian"@
        } else {
            "\u{1f4ca} Daily Report"@
        }
    } else if key == "btn_weekly"@ {
        if id {
            "\u{1f4ca} Laporan Mingguan"@
        } else {
            "\u{1f4ca} Weekly Report"@
        }
    } else if key == "btn_add"@ {
        if id {
            "\u{1f4dd} Tambah Pengeluaran"@
        } else {
            "\u{1f4dd} Add Expense"@
        }
    } else if key == "btn_settings"@ {
        if id {
            "\u{2699}\u{fe0f} Pengaturan"@
        } else {
            "\u{2699}\u{fe0f} Settings"@
        }
    } else {
        "Text missing"@
    }
}

/// Picks the user-facing text for `key` in the language of `lang_code` (Indonesian where the
/// code starts with "id", English otherwise). `amount` is the month's total already written
/// with two decimals; only the dashboard text uses `name` and `amount`. Unknown keys give
/// "Text missing".
pub fn get_text(key: &str, lang_code: &str, name: &str, amount: &str) -> (res: String)
    ensures
        res@ == text_for(key@, lang_code@, name@, amount@),
{
    let id = str_starts_with(lang_code, "id");
    if str_equal(key, "err_db") {
        if id {
            String::from_str("Terjadi kesalahan database internal.")
        } else {
            String::from_str("Internal database error.")
        }
    } else if str_equal(key, "not_whitelisted") {
        if id {
            String::from_str("Selamat datang! Kamu belum terdaftar. Silakan hubungi administrator.")
        } else {
            String::from_str("Welcome! You are not whitelisted yet. Please contact the administrator.")
        }
    } else if str_equal(key, "not_authorized") {
        if id {
            String::from_str("Kamu tidak memiliki izin.")
        } else {
            String::from_str("You are not authorized.")
        }
    } else if str_equal(key, "dashboard_text") {
        if id {
            let mut s = String::from_str("Halo, <b>");
            s.append(name);
            s.append(
                "</b>! Selamat datang di Dashboard Keuanganmu.\n\n\u{1f4b0} <b>Total Pengeluaran Bulan Ini:</b> Rp ",
            );
            s.append(amount);
            s.append("\n\nApa yang ingin kamu pantau hari ini?");
            s
        } else {
            let mut s = String::from_str("Hello, <b>");
            s.append(name);
            s.append(
                "</b>! Welcome to your Financial Dashboard.\n\n\u{1f4b0} <b>Total Expenses This Month:</b> Rp ",
            );
            s.append(amount);
            s.append("\n\nWhat would you like to track today?");
            s
        }
    } else if str_equal(key, "btn_daily") {
        if id {
            String::from_str("\u{1f4ca} Laporan Harian")
        } else {
            String::from_str("\u{1f4ca} Daily Report")
        }
    } else if str_equal(key, "btn_weekly") {
        if id {
            String::from_str("\u{1f4ca} Laporan Mingguan")
        } else {
            String::from_str("\u{1f4ca} Weekly Report")
        }
    } else if str_equal(key, "btn_add") {
        if id {
            String::from_str("\u{1f4dd} Tambah Pengeluaran")
        } else {
            String::from_str("\u{1f4dd} Add Expense")
        }
    } else if str_equal(key, "btn_settings") {
        if id {
            String::from_str("\u{2699}\u{fe0f} Pengaturan")
        } else {
            String::from_str("\u{2699}\u{fe0f} Settings")
        }
    } else {
        String::from_str("Text missing")
    }
}


/// Only the dashboard text uses the name and the amount: every other key gives the same
/// text whatever they are.
pub proof fn lemma_only_dashboard_uses_name_and_amount(
    key: Seq<char>,
    lang_code: Seq<char>,
    name1: Seq<char>,
    amount1: Seq<char>,
    name2: Seq<char>,
    amount2: Seq<char>,
)
    requires
        key != "dashboard_text"@,
    ensures
        text_for(key, lang_code, name1, amount1) == text_for(key, lang_code, name2, amount2),
{
}

} // verus!
