use calamine::{Data, Reader, Xlsx};
use desktop_app::clock::Timestamp;
use desktop_app::data::TableData;
use desktop_app::export::{
    export_filename, export_path, render_timestamp, render_value, ExcelExporter, ExportError,
};

fn ts(year: u16, month: u8, day: u8, hour: u8, minute: u8, second: u8) -> Timestamp {
    Timestamp { year, month, day, hour, minute, second }
}

fn row(id: u32, name: &str, value: u64, date: Timestamp) -> TableData {
    TableData { id, name: name.to_string(), value, date }
}

#[test]
fn value_has_exactly_two_decimals() {
    assert_eq!(render_value(0), "0.00");
    assert_eq!(render_value(5), "0.05");
    assert_eq!(render_value(99), "0.99");
    assert_eq!(render_value(100), "1.00");
    assert_eq!(render_value(123456), "1234.56");
    assert_eq!(render_value(u64::MAX), "184467440737095516.15");
}

#[test]
fn timestamp_renders_fixed_width() {
    assert_eq!(render_timestamp(&ts(2026, 1, 2, 3, 4, 5)), "2026-01-02 03:04:05");
    assert_eq!(render_timestamp(&ts(999, 12, 31, 23, 59, 59)), "0999-12-31 23:59:59");
}

#[test]
fn filename_is_stamped() {
    assert_eq!(export_filename(&ts(2026, 1, 2, 3, 4, 5)), "export_20260102_030405.xlsx");
}

#[test]
fn path_falls_back_to_current_directory() {
    let stamp = ts(2026, 10, 11, 12, 13, 14);
    assert_eq!(
        export_path(&Some("/home/someone/Downloads".to_string()), &stamp),
        "/home/someone/Downloads/export_20261011_121314.xlsx"
    );
    assert_eq!(export_path(&None, &stamp), "./export_20261011_121314.xlsx");
}

#[test]
fn empty_export_holds_only_the_header_row() {
    let exporter = ExcelExporter::new();
    let doc = exporter.export_data(&Vec::new()).unwrap();
    let mut workbook = doc.workbook;
    let buffer = workbook.save_to_buffer().unwrap();
    let mut read_back: Xlsx<_> = Xlsx::new(std::io::Cursor::new(buffer)).unwrap();
    let range = read_back.worksheet_range_at(0).unwrap().unwrap();
    assert_eq!(range.rows().count(), 1);
    assert_eq!(range.get_value((0, 0)), Some(&Data::String("ID".to_string())));
    assert_eq!(range.get_value((0, 1)), Some(&Data::String("Name".to_string())));
    assert_eq!(range.get_value((0, 2)), Some(&Data::String("Value".to_string())));
    assert_eq!(range.get_value((0, 3)), Some(&Data::String("Date".to_string())));
}

#[test]
fn export_writes_one_row_per_record_in_order() {
    let rows = vec![
        row(1, "Alpha", 12345, ts(2026, 1, 2, 3, 4, 5)),
        row(2, "Beta", 5, ts(2026, 1, 2, 3, 4, 6)),
        row(3, "Gamma", 100, ts(2027, 12, 31, 23, 59, 59)),
    ];
    let exporter = ExcelExporter::new();
    let doc = exporter.export_data(&rows).unwrap();
    assert!(doc.path.ends_with(".xlsx"));
    let mut workbook = doc.workbook;
    let buffer = workbook.save_to_buffer().unwrap();
    let mut read_back: Xlsx<_> = Xlsx::new(std::io::Cursor::new(buffer)).unwrap();
    let range = read_back.worksheet_range_at(0).unwrap().unwrap();
    assert_eq!(range.rows().count(), 4);
    let s = |t: &str| Some(Data::String(t.to_string()));
    assert_eq!(range.get_value((1, 0)).cloned(), s("1"));
    assert_eq!(range.get_value((1, 1)).cloned(), s("Alpha"));
    assert_eq!(range.get_value((1, 2)).cloned(), s("123.45"));
    assert_eq!(range.get_value((1, 3)).cloned(), s("2026-01-02 03:04:05"));
    assert_eq!(range.get_value((2, 0)).cloned(), s("2"));
    assert_eq!(range.get_value((2, 1)).cloned(), s("Beta"));
    assert_eq!(range.get_value((2, 2)).cloned(), s("0.05"));
    assert_eq!(range.get_value((2, 3)).cloned(), s("2026-01-02 03:04:06"));
    assert_eq!(range.get_value((3, 0)).cloned(), s("3"));
    assert_eq!(range.get_value((3, 1)).cloned(), s("Gamma"));
    assert_eq!(range.get_value((3, 2)).cloned(), s("1.00"));
    assert_eq!(range.get_value((3, 3)).cloned(), s("2027-12-31 23:59:59"));
}

#[test]
fn too_many_rows_is_refused() {
    let stamp = ts(2026, 1, 1, 0, 0, 0);
    let mut rows = Vec::new();
    for i in 0..1_048_576u32 {
        rows.push(row(i + 1, "", 0, stamp));
    }
    let exporter = ExcelExporter::new();
    assert!(matches!(exporter.export_data(&rows), Err(ExportError::TooManyRows)));
}

#[test]
fn an_oversized_name_is_refused() {
    let rows = vec![row(1, &"x".repeat(32_768), 0, ts(2026, 1, 1, 0, 0, 0))];
    let exporter = ExcelExporter::new();
    assert!(matches!(exporter.export_data(&rows), Err(ExportError::NameTooLong)));
}

#[test]
fn a_name_at_the_limit_is_accepted() {
    let rows = vec![row(1, &"x".repeat(32_767), 0, ts(2026, 1, 1, 0, 0, 0))];
    let exporter = ExcelExporter::new();
    assert!(exporter.export_data(&rows).is_ok());
}
