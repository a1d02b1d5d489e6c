use chessboard::board::ChessBoard;
use chessboard::coords::{rank_and_file_to_index, CoordError};
use chessboard::piece::{glyph_key, starting_occupant_at, Occupant, PieceKind, Side};
use chessboard::square::{Square, SquareColor};

fn find<'a>(squares: &'a [Square], name: &str) -> &'a Square {
    squares.iter().find(|s| s.name() == name).unwrap()
}

#[test]
fn layout_has_every_square_once() {
    let squares = ChessBoard::get_base_board();
    assert_eq!(squares.len(), 64);
    let mut seen = Vec::new();
    for s in &squares {
        assert!((1..=8).contains(&s.rank()));
        assert!(('a'..='h').contains(&s.file()));
        let pair = (s.rank(), s.file());
        assert!(!seen.contains(&pair));
        seen.push(pair);
    }
    for rank in 1..=8u8 {
        for file in 'a'..='h' {
            assert!(seen.contains(&(rank, file)));
        }
    }
}

#[test]
fn layout_order_and_names() {
    let squares = ChessBoard::get_base_board();
    assert_eq!(squares[0].name(), "a8");
    assert_eq!(squares[7].name(), "h8");
    assert_eq!(squares[8].name(), "a7");
    assert_eq!(squares[56].name(), "a1");
    assert_eq!(squares[63].name(), "h1");
    for s in &squares {
        assert_eq!(s.name(), format!("{}{}", s.file(), s.rank()));
    }
}

#[test]
fn corner_colors() {
    let squares = ChessBoard::get_base_board();
    assert_eq!(find(&squares, "a1").color(), SquareColor::Dark);
    assert_eq!(find(&squares, "h1").color(), SquareColor::Light);
    assert_eq!(find(&squares, "a8").color(), SquareColor::Light);
    assert_eq!(find(&squares, "h8").color(), SquareColor::Dark);
    assert_eq!(find(&squares, "e4").color(), SquareColor::Light);
    assert_eq!(find(&squares, "d4").color(), SquareColor::Dark);
}

#[test]
fn neighbours_have_opposite_colors() {
    let squares = ChessBoard::get_base_board();
    for a in &squares {
        for b in &squares {
            let dr = (a.rank() as i32 - b.rank() as i32).abs();
            let df = (a.file() as i32 - b.file() as i32).abs();
            if dr + df == 1 {
                assert_ne!(a.color(), b.color());
            }
        }
    }
}

#[test]
fn square_new_sets_every_field() {
    let s = Square::new(3, 'c');
    assert_eq!(s.name(), "c3");
    assert_eq!(s.rank(), 3);
    assert_eq!(s.file(), 'c');
    assert_eq!(s.color(), SquareColor::Dark);
    let copy = s.clone();
    assert_eq!(copy.name(), "c3");
    assert_eq!(copy.color(), SquareColor::Dark);
}

#[test]
fn initial_position_counts() {
    let table = ChessBoard::get_initial_position();
    assert_eq!(table.len(), 64);
    let count = |o: Occupant| table.iter().filter(|x| **x == o).count();
    let kind = |k: PieceKind| {
        table
            .iter()
            .filter(|x| matches!(x, Occupant::Occupied(_, kk) if *kk == k))
            .count()
    };
    assert_eq!(count(Occupant::Empty), 32);
    assert_eq!(kind(PieceKind::Pawn), 16);
    assert_eq!(count(Occupant::Occupied(Side::White, PieceKind::Pawn)), 8);
    assert_eq!(count(Occupant::Occupied(Side::Black, PieceKind::Pawn)), 8);
    assert_eq!(kind(PieceKind::Rook), 4);
    assert_eq!(kind(PieceKind::Knight), 4);
    assert_eq!(kind(PieceKind::Bishop), 4);
    assert_eq!(kind(PieceKind::Queen), 2);
    assert_eq!(kind(PieceKind::King), 2);
    assert_eq!(count(Occupant::Occupied(Side::White, PieceKind::King)), 1);
    assert_eq!(count(Occupant::Occupied(Side::Black, PieceKind::Queen)), 1);
}

#[test]
fn indexer_corners() {
    assert_eq!(rank_and_file_to_index(8, 'a'), Ok(0));
    assert_eq!(rank_and_file_to_index(8, 'h'), Ok(7));
    assert_eq!(rank_and_file_to_index(1, 'a'), Ok(56));
    assert_eq!(rank_and_file_to_index(1, 'h'), Ok(63));
    assert_eq!(rank_and_file_to_index(4, 'e'), Ok(36));
}

#[test]
fn indexer_rejects_off_board() {
    assert_eq!(rank_and_file_to_index(0, 'a'), Err(CoordError::OutOfRange));
    assert_eq!(rank_and_file_to_index(9, 'a'), Err(CoordError::OutOfRange));
    assert_eq!(rank_and_file_to_index(1, 'i'), Err(CoordError::OutOfRange));
    assert_eq!(rank_and_file_to_index(1, '`'), Err(CoordError::OutOfRange));
    assert_eq!(rank_and_file_to_index(255, 'A'), Err(CoordError::OutOfRange));
}

#[test]
fn lookup_gives_starting_pieces() {
    let squares = ChessBoard::get_base_board();
    let table = ChessBoard::get_initial_position();
    let at = |name: &str| {
        let s = find(&squares, name);
        table[rank_and_file_to_index(s.rank(), s.file()).unwrap()]
    };
    assert_eq!(at("e1"), Occupant::Occupied(Side::White, PieceKind::King));
    assert_eq!(at("d1"), Occupant::Occupied(Side::White, PieceKind::Queen));
    assert_eq!(at("e8"), Occupant::Occupied(Side::Black, PieceKind::King));
    assert_eq!(at("d8"), Occupant::Occupied(Side::Black, PieceKind::Queen));
    assert_eq!(at("e2"), Occupant::Occupied(Side::White, PieceKind::Pawn));
    assert_eq!(at("e7"), Occupant::Occupied(Side::Black, PieceKind::Pawn));
    assert_eq!(at("d4"), Occupant::Empty);
    assert_eq!(at("a1"), Occupant::Occupied(Side::White, PieceKind::Rook));
    assert_eq!(at("g8"), Occupant::Occupied(Side::Black, PieceKind::Knight));
    assert_eq!(at("c1"), Occupant::Occupied(Side::White, PieceKind::Bishop));
}

#[test]
fn board_pairs_squares_with_occupants() {
    let board = ChessBoard::new();
    assert_eq!(board.square(0).name(), "a8");
    assert_eq!(board.occupant(0), Occupant::Occupied(Side::Black, PieceKind::Rook));
    assert_eq!(board.square(60).name(), "e1");
    assert_eq!(board.occupant(60), Occupant::Occupied(Side::White, PieceKind::King));
    assert_eq!(board.square(35).name(), "d4");
    assert_eq!(board.occupant(35), Occupant::Empty);
    for i in 0..64usize {
        let s = board.square(i);
        assert_eq!(board.occupant(i), starting_occupant_at(s.rank(), s.file()));
    }
}

#[test]
fn generation_repeats() {
    let a = ChessBoard::get_base_board();
    let b = ChessBoard::get_base_board();
    assert_eq!(a.len(), b.len());
    for (x, y) in a.iter().zip(b.iter()) {
        assert_eq!(x.name(), y.name());
        assert_eq!(x.color(), y.color());
        assert_eq!(x.rank(), y.rank());
        assert_eq!(x.file(), y.file());
    }
    assert_eq!(ChessBoard::get_initial_position(), ChessBoard::get_initial_position());
}

#[test]
fn glyph_keys() {
    assert_eq!(glyph_key(Occupant::Empty), None);
    assert_eq!(glyph_key(Occupant::Occupied(Side::White, PieceKind::King)), Some("KW"));
    assert_eq!(glyph_key(Occupant::Occupied(Side::White, PieceKind::Knight)), Some("KnW"));
    assert_eq!(glyph_key(Occupant::Occupied(Side::Black, PieceKind::Knight)), Some("KnB"));
    assert_eq!(glyph_key(Occupant::Occupied(Side::Black, PieceKind::Pawn)), Some("PB"));
    assert_eq!(glyph_key(Occupant::Occupied(Side::Black, PieceKind::Bishop)), Some("BB"));
    let mut keys = Vec::new();
    for side in [Side::White, Side::Black] {
        for kind in [
            PieceKind::Pawn,
            PieceKind::Knight,
            PieceKind::Bishop,
            PieceKind::Rook,
            PieceKind::Queen,
            PieceKind::King,
        ] {
            let key = glyph_key(Occupant::Occupied(side, kind)).unwrap();
            assert!(!keys.contains(&key));
            keys.push(key);
        }
    }
    assert_eq!(keys.len(), 12);
}
