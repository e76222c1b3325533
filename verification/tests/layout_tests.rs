use ratisui::completion::{CompletionItem, CompletionItemKind};
use ratisui::list_row::{row_border, RowBorder, RowsBuilder};
use ratisui::menu_layout::{desc_area, menu_area, menu_counter, menu_row, Area, MenuRow};

fn area(x: u16, y: u16, width: u16, height: u16) -> Area {
    Area { x, y, width, height }
}

#[test]
fn menu_goes_below_and_right_of_the_cursor() {
    let input = area(0, 0, 80, 1);
    assert_eq!(menu_area(input, 5, 0, 3, 40, 100), Some(area(6, 1, 50, 4)));
    assert_eq!(menu_area(input, 5, 0, 20, 40, 100), Some(area(6, 1, 50, 11)));
}

#[test]
fn menu_moves_left_and_up_at_the_edges() {
    let input = area(0, 0, 80, 1);
    assert_eq!(menu_area(input, 70, 0, 3, 40, 100), Some(area(50, 1, 50, 4)));
    assert_eq!(menu_area(input, 5, 10, 3, 13, 100), Some(area(6, 6, 50, 4)));
}

#[test]
fn no_menu_in_a_small_frame() {
    let input = area(0, 0, 80, 1);
    assert_eq!(menu_area(input, 0, 0, 3, 40, 50), None);
    assert_eq!(menu_area(input, 0, 0, 3, 12, 100), None);
}

#[test]
fn description_beside_the_menu() {
    assert_eq!(desc_area(area(6, 1, 50, 4), 10, 40, 100), Some(area(56, 1, 44, 10)));
    assert_eq!(desc_area(area(6, 1, 50, 4), 100, 40, 100), Some(area(56, 1, 44, 25)));
    assert_eq!(desc_area(area(50, 1, 50, 4), 10, 40, 100), Some(area(0, 1, 50, 10)));
    assert_eq!(desc_area(area(10, 1, 50, 4), 10, 40, 70), None);
    assert_eq!(desc_area(area(6, 10, 50, 4), 10, 20, 100), None);
    assert_eq!(desc_area(area(6, 30, 50, 4), 10, 40, 100), Some(area(56, 24, 44, 10)));
}

#[test]
fn menu_footer_counter() {
    assert_eq!(menu_counter(2, 12), "3:12");
    assert_eq!(menu_counter(usize::MAX, 1), format!("{}:1", usize::MAX));
}

#[test]
fn menu_rows_split_the_label_at_the_segment() {
    let item = CompletionItem::default("GETRANGE").detail("key start end");
    assert_eq!(
        menu_row(&item, "RANGE"),
        MenuRow {
            label: Some(("GET".to_string(), "RANGE".to_string(), "".to_string())),
            detail: Some("key start end".to_string()),
            kind: "Generic".to_string(),
        }
    );
    let item = CompletionItem::custom("idx", CompletionItemKind::Index);
    assert_eq!(menu_row(&item, "zz"), MenuRow { label: None, detail: None, kind: "Index".to_string() });
    let row = menu_row(&item, "");
    assert_eq!(row.label, Some(("".to_string(), "".to_string(), "idx".to_string())));
}

#[test]
fn list_rows_join_their_borders() {
    let mut b = RowsBuilder::new(2);
    b.add_row(vec!["a\nb".to_string(), "c".to_string()]);
    assert_eq!(b.rows.len(), 1);
    assert_eq!(row_border(&b.rows[0]), RowBorder::Single);
    assert_eq!(b.rows[0].max_height, 1);
    b.add_row(vec!["only one".to_string()]);
    assert_eq!(b.rows.len(), 1);
    b.add_row(vec!["x\ny\nz\nw".to_string(), "p\nq\nr\ns".to_string()]);
    let rows = b.get_rows();
    assert_eq!(rows.len(), 2);
    assert_eq!(rows[1].index, 1);
    assert_eq!(rows[1].max_height, 3);
    assert_eq!(row_border(&rows[0]), RowBorder::First);
    assert_eq!(row_border(&rows[1]), RowBorder::Last);
    let mut b = RowsBuilder::new(1);
    b.add_row(vec![String::new()]);
    assert_eq!(b.rows[0].max_height, 0);
}
