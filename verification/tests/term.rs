use terminal_core::{Cell, Color, Grid, Style};

#[test]
fn test_cell_default() {
    let cell = Cell::default();
    assert_eq!(cell.c, ' ');
    assert!(cell.is_empty());
}

#[test]
fn test_cell_new() {
    let cell = Cell::new('A');
    assert_eq!(cell.c, 'A');
    assert!(!cell.is_empty());
}

#[test]
fn test_cell_with_colors() {
    let fg = Color::new(255, 0, 0);
    let bg = Color::new(0, 0, 255);
    let cell = Cell::with_colors('X', fg, bg);
    assert_eq!(cell.c, 'X');
    assert_eq!(cell.fg, fg);
    assert_eq!(cell.bg, bg);
}

#[test]
fn test_cell_is_empty_transitions() {
    let mut cell = Cell::new('A');
    assert!(!cell.is_empty());
    cell.c = ' ';
    assert!(cell.is_empty());
    cell.style.bold = true;
    assert!(cell.is_empty());
    cell.fg = Color::new(1, 2, 3);
    assert!(!cell.is_empty());
}

#[test]
fn test_color_new() {
    let c = Color::new(128, 64, 32);
    assert_eq!(c.r, 128);
    assert_eq!(c.g, 64);
    assert_eq!(c.b, 32);
}

#[test]
fn test_color_to_css() {
    let c = Color::new(255, 128, 0);
    assert_eq!(c.to_css(), "rgb(255, 128, 0)");
}

#[test]
fn test_color_to_hex() {
    let c = Color::new(255, 128, 0);
    assert_eq!(c.to_hex(), "#ff8000");
}

#[test]
fn test_color_to_hex_black() {
    let c = Color::new(0, 0, 0);
    assert_eq!(c.to_hex(), "#000000");
}

#[test]
fn test_color_default_bg() {
    let bg = Color::default_bg();
    assert_eq!(bg.r, 0);
    assert_eq!(bg.g, 0);
    assert_eq!(bg.b, 0);
}

#[test]
fn test_color_default_fg() {
    let fg = Color::default_fg();
    assert_eq!(fg.r, 204);
    assert_eq!(fg.g, 204);
    assert_eq!(fg.b, 204);
}

#[test]
fn test_color_from_rgb() {
    let rgb = vte::ansi::Rgb { r: 10, g: 20, b: 30 };
    let c = Color::from(rgb);
    assert_eq!(c, Color::new(10, 20, 30));
}

#[test]
fn test_style_default() {
    let s = Style::default();
    assert!(!s.bold);
    assert!(!s.italic);
    assert!(!s.has_any());
}

#[test]
fn test_style_has_any() {
    let mut s = Style::new();
    assert!(!s.has_any());
    s.bold = true;
    assert!(s.has_any());
}

#[test]
fn test_style_to_css_classes() {
    let s = Style {
        bold: true,
        italic: true,
        underline: false,
        strikethrough: false,
        dim: false,
        inverse: false,
    };
    let classes = s.to_css_classes();
    assert!(classes.contains("font-bold"));
    assert!(classes.contains("italic"));
}

#[test]
fn test_style_to_css_classes_exact() {
    let mut s = Style::new();
    assert_eq!(s.to_css_classes(), "");
    s.underline = true;
    s.dim = true;
    assert_eq!(s.to_css_classes(), "underline opacity-50");
    s.inverse = true;
    assert_eq!(s.to_css_classes(), "underline opacity-50");
}

#[test]
fn test_grid_new() {
    let grid = Grid::new(24, 80);
    assert_eq!(grid.rows(), 24);
    assert_eq!(grid.cols(), 80);
}

#[test]
fn test_grid_new_all_default() {
    let grid = Grid::new(3, 4);
    for r in 0..3 {
        for c in 0..4 {
            let cell = grid.get(r, c).unwrap();
            assert_eq!(*cell, Cell::default());
        }
    }
}

#[test]
fn test_grid_get_set() {
    let mut grid = Grid::new(10, 10);
    grid.set(5, 5, Cell::new('X'));
    let cell = grid.get(5, 5).unwrap();
    assert_eq!(cell.c, 'X');
}

#[test]
fn test_grid_set_out_of_bounds_is_noop() {
    let mut grid = Grid::new(4, 4);
    grid.set(1, 1, Cell::new('A'));
    grid.set(4, 0, Cell::new('B'));
    grid.set(0, 4, Cell::new('C'));
    assert_eq!(grid.get(1, 1).unwrap().c, 'A');
    for r in 0..4 {
        for c in 0..4 {
            if (r, c) != (1, 1) {
                assert_eq!(*grid.get(r, c).unwrap(), Cell::default());
            }
        }
    }
}

#[test]
fn test_grid_get_mut() {
    let mut grid = Grid::new(4, 4);
    grid.get_mut(2, 3).unwrap().c = 'Z';
    assert_eq!(grid.get(2, 3).unwrap().c, 'Z');
    assert!(grid.get_mut(4, 0).is_none());
    assert!(grid.get_mut(0, 4).is_none());
}

#[test]
fn test_grid_get_out_of_bounds() {
    let grid = Grid::new(10, 10);
    assert!(grid.get(10, 5).is_none());
    assert!(grid.get(5, 10).is_none());
}

#[test]
fn test_grid_clear() {
    let mut grid = Grid::new(10, 10);
    grid.set(5, 5, Cell::new('X'));
    grid.clear();
    assert!(grid.get(5, 5).unwrap().is_empty());
}

#[test]
fn test_grid_clear_twice_same_as_once() {
    let mut once = Grid::new(5, 6);
    let mut twice = Grid::new(5, 6);
    once.set(2, 3, Cell::new('X'));
    twice.set(2, 3, Cell::new('X'));
    once.clear();
    twice.clear();
    twice.clear();
    for r in 0..5 {
        for c in 0..6 {
            assert_eq!(*once.get(r, c).unwrap(), *twice.get(r, c).unwrap());
            assert_eq!(*once.get(r, c).unwrap(), Cell::default());
        }
    }
}

#[test]
fn test_grid_resize_larger() {
    let mut grid = Grid::new(10, 10);
    grid.set(5, 5, Cell::new('X'));
    grid.resize(20, 20);
    assert_eq!(grid.rows(), 20);
    assert_eq!(grid.cols(), 20);
    assert_eq!(grid.get(5, 5).unwrap().c, 'X');
}

#[test]
fn test_grid_resize_smaller() {
    let mut grid = Grid::new(20, 20);
    grid.set(5, 5, Cell::new('X'));
    grid.set(15, 15, Cell::new('Y'));
    grid.resize(10, 10);
    assert_eq!(grid.rows(), 10);
    assert_eq!(grid.cols(), 10);
    assert_eq!(grid.get(5, 5).unwrap().c, 'X');
    assert!(grid.get(15, 15).is_none());
}

#[test]
fn test_grid_resize_to_boundary_drops_cell() {
    let mut grid = Grid::new(10, 10);
    grid.set(5, 5, Cell::new('X'));
    grid.resize(5, 10);
    assert!(grid.get(5, 5).is_none());
    grid.resize(10, 10);
    assert_eq!(*grid.get(5, 5).unwrap(), Cell::default());
}

#[test]
fn test_grid_resize_new_area_is_default() {
    let mut grid = Grid::new(2, 2);
    grid.set(0, 0, Cell::new('X'));
    grid.resize(3, 3);
    assert_eq!(grid.get(0, 0).unwrap().c, 'X');
    assert_eq!(*grid.get(2, 2).unwrap(), Cell::default());
    assert_eq!(*grid.get(0, 2).unwrap(), Cell::default());
    assert_eq!(*grid.get(2, 0).unwrap(), Cell::default());
}

#[test]
fn test_grid_iter_rows() {
    let grid = Grid::new(3, 4);
    let rows = grid.iter_rows();
    assert_eq!(rows.len(), 3);
    assert_eq!(rows[0].len(), 4);
}

#[test]
fn test_grid_iter_rows_contents() {
    let mut grid = Grid::new(2, 3);
    grid.set(1, 2, Cell::new('Q'));
    let rows = grid.iter_rows();
    assert_eq!(rows.len(), 2);
    assert_eq!(rows[1][2].c, 'Q');
    assert_eq!(rows[0][0], Cell::default());
}
