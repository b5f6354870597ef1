use expense_tracker::utils::get_text;

#[test]
fn texts_in_indonesian_for_id_codes() {
    assert_eq!(get_text("err_db", "id", "", "0.00"), "Terjadi kesalahan database internal.");
    assert_eq!(get_text("err_db", "id-ID", "", "0.00"), "Terjadi kesalahan database internal.");
    assert_eq!(get_text("not_authorized", "id", "", "0.00"), "Kamu tidak memiliki izin.");
    assert_eq!(
        get_text("not_whitelisted", "id", "", "0.00"),
        "Selamat datang! Kamu belum terdaftar. Silakan hubungi administrator."
    );
    assert_eq!(get_text("btn_daily", "id", "", "0.00"), "\u{1f4ca} Laporan Harian");
    assert_eq!(get_text("btn_weekly", "id", "", "0.00"), "\u{1f4ca} Laporan Mingguan");
    assert_eq!(get_text("btn_add", "id", "", "0.00"), "\u{1f4dd} Tambah Pengeluaran");
    assert_eq!(get_text("btn_settings", "id", "", "0.00"), "\u{2699}\u{fe0f} Pengaturan");
}

#[test]
fn texts_in_english_for_other_codes() {
    assert_eq!(get_text("err_db", "en", "", "0.00"), "Internal database error.");
    assert_eq!(get_text("err_db", "", "", "0.00"), "Internal database error.");
    assert_eq!(get_text("err_db", "ID", "", "0.00"), "Internal database error.");
    assert_eq!(get_text("not_authorized", "en-US", "", "0.00"), "You are not authorized.");
    assert_eq!(
        get_text("not_whitelisted", "de", "", "0.00"),
        "Welcome! You are not whitelisted yet. Please contact the administrator."
    );
    assert_eq!(get_text("btn_daily", "en", "", "0.00"), "\u{1f4ca} Daily Report");
    assert_eq!(get_text("btn_weekly", "en", "", "0.00"), "\u{1f4ca} Weekly Report");
    assert_eq!(get_text("btn_add", "en", "", "0.00"), "\u{1f4dd} Add Expense");
    assert_eq!(get_text("btn_settings", "en", "", "0.00"), "\u{2699}\u{fe0f} Settings");
}

#[test]
fn dashboard_text_carries_name_and_amount() {
    assert_eq!(
        get_text("dashboard_text", "id", "Budi", "12500.00"),
        "Halo, <b>Budi</b>! Selamat datang di Dashboard Keuanganmu.\n\n\u{1f4b0} <b>Total Pengeluaran Bulan Ini:</b> Rp 12500.00\n\nApa yang ingin kamu pantau hari ini?"
    );
    assert_eq!(
        get_text("dashboard_text", "en", "Ann", &format!("{:.2}", 3.5f64)),
        "Hello, <b>Ann</b>! Welcome to your Financial Dashboard.\n\n\u{1f4b0} <b>Total Expenses This Month:</b> Rp 3.50\n\nWhat would you like to track today?"
    );
}

#[test]
fn unknown_keys_give_text_missing_in_every_language() {
    for lang in ["id", "en", ""] {
        assert_eq!(get_text("btn_back", lang, "x", "1.00"), "Text missing");
        assert_eq!(get_text("report_daily", lang, "", "0.00"), "Text missing");
        assert_eq!(get_text("", lang, "", "0.00"), "Text missing");
    }
}

#[test]
fn only_the_dashboard_text_uses_name_and_amount() {
    for key in ["err_db", "not_whitelisted", "not_authorized", "btn_daily", "btn_weekly", "btn_add", "btn_settings", "other"] {
        for lang in ["id", "en"] {
            assert_eq!(get_text(key, lang, "Ann", "1.00"), get_text(key, lang, "Budi", "99.50"));
        }
    }
    assert_ne!(get_text("dashboard_text", "en", "Ann", "1.00"), get_text("dashboard_text", "en", "Budi", "1.00"));
}
