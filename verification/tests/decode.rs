use std::str::FromStr;

use chess::{Board, Color, Piece, Square};
use engine_bridge::position::{is_well_formed, decode, settle, DecodeError};

const START: &str = "rnbqkbnr/pppppppp/8/8/8/8/PPPPPPPP/RNBQKBNR w KQkq - 0 1";

#[test]
fn starting_position_decodes_to_the_initial_board() {
    let board = decode(START).expect("the starting position is valid");
    assert_eq!(board, Board::default());
    assert_eq!(board.side_to_move(), Color::White);
    assert_eq!(board.piece_on(Square::E1), Some(Piece::King));
    assert_eq!(board.color_on(Square::E8), Some(Color::Black));
}

#[test]
fn malformed_text_is_an_invalid_position() {
    assert_eq!(decode("not-a-fen"), Err(DecodeError::InvalidPosition));
}

#[test]
fn empty_text_is_an_invalid_position() {
    assert_eq!(decode(""), Err(DecodeError::InvalidPosition));
    assert!(!is_well_formed(""));
}

#[test]
fn decode_can_follow_a_rejection() {
    assert_eq!(decode("not-a-fen"), Err(DecodeError::InvalidPosition));
    assert_eq!(decode(START), Ok(Board::default()));
    assert_eq!(decode("not-a-fen"), Err(DecodeError::InvalidPosition));
}

#[test]
fn empty_board_is_rejected() {
    assert!(!is_well_formed("8/8/8/8/8/8/8/8 w - - 0 1"));
    assert_eq!(decode("8/8/8/8/8/8/8/8 w - - 0 1"), Err(DecodeError::InvalidPosition));
}

#[test]
fn board_without_the_movers_king_is_rejected() {
    assert!(!is_well_formed("4k3/8/8/8/8/8/8/8 w - - 0 1"));
    assert_eq!(decode("4k3/8/8/8/8/8/8/8 w - - 0 1"), Err(DecodeError::InvalidPosition));
    assert!(!is_well_formed("8/8/8/8/8/8/8/4K3 b - - 0 1"));
    assert_eq!(decode("8/8/8/8/8/8/8/4K3 b - - 0 1"), Err(DecodeError::InvalidPosition));
}

#[test]
fn board_without_the_other_king_is_well_formed_but_rejected() {
    assert!(is_well_formed("8/8/8/8/8/8/8/4K3 w - - 0 1"));
    assert_eq!(decode("8/8/8/8/8/8/8/4K3 w - - 0 1"), Err(DecodeError::InvalidPosition));
}

#[test]
fn position_with_the_waiting_side_in_check_is_rejected() {
    let text = "4k3/8/8/8/8/8/8/4KR2 w - - 0 1";
    assert_eq!(decode(text).map(|board| board.side_to_move()), Ok(Color::White));
    let text = "4k3/8/8/8/8/8/4R3/4K3 w - - 0 1";
    assert!(is_well_formed(text));
    assert_eq!(decode(text), Err(DecodeError::InvalidPosition));
}

#[test]
fn short_rank_is_rejected() {
    let text = "rnbqkbnr/pppppppp/8/8/8/8/PPPPPPPP/RNBQKBN w KQkq - 0 1";
    assert!(!is_well_formed(text));
    assert_eq!(decode(text), Err(DecodeError::InvalidPosition));
}

#[test]
fn long_rank_is_rejected() {
    let text = "rnbqkbnr/pppppppp/9/8/8/8/PPPPPPPP/RNBQKBNR w KQkq - 0 1";
    assert!(!is_well_formed(text));
    let text = "rnbqkbnr/pppppppp/8/8/8/8/PPPPPPPPP/RNBQKBNR w KQkq - 0 1";
    assert!(!is_well_formed(text));
    assert_eq!(decode(text), Err(DecodeError::InvalidPosition));
}

#[test]
fn wrong_number_of_ranks_is_rejected() {
    assert!(!is_well_formed("rnbqkbnr/pppppppp/8/8/8/PPPPPPPP/RNBQKBNR w KQkq - 0 1"));
    assert!(!is_well_formed("rnbqkbnr/pppppppp/8/8/8/8/8/PPPPPPPP/RNBQKBNR w KQkq - 0 1"));
    assert!(!is_well_formed("rnbqkbnr/pppppppp/8/8/8/8/PPPPPPPP/RNBQKBNR/ w KQkq - 0 1"));
    assert_eq!(
        decode("rnbqkbnr/pppppppp/8/8/8/PPPPPPPP/RNBQKBNR w KQkq - 0 1"),
        Err(DecodeError::InvalidPosition)
    );
}

#[test]
fn unknown_piece_letter_is_rejected() {
    let text = "rnbqkbnr/pppppppp/8/8/8/8/PPPPPPPP/RNBXKBNR w KQkq - 0 1";
    assert!(!is_well_formed(text));
    assert_eq!(decode(text), Err(DecodeError::InvalidPosition));
}

#[test]
fn unknown_side_is_rejected() {
    let text = "rnbqkbnr/pppppppp/8/8/8/8/PPPPPPPP/RNBQKBNR x KQkq - 0 1";
    assert!(!is_well_formed(text));
    assert_eq!(decode(text), Err(DecodeError::InvalidPosition));
    let text = "rnbqkbnr/pppppppp/8/8/8/8/PPPPPPPP/RNBQKBNR wb KQkq - 0 1";
    assert!(!is_well_formed(text));
    assert_eq!(decode(text), Err(DecodeError::InvalidPosition));
}

#[test]
fn doubled_space_is_rejected() {
    let text = "rnbqkbnr/pppppppp/8/8/8/8/PPPPPPPP/RNBQKBNR  w KQkq - 0 1";
    assert!(!is_well_formed(text));
    assert_eq!(decode(text), Err(DecodeError::InvalidPosition));
}

#[test]
fn fewer_than_four_fields_are_rejected() {
    assert!(!is_well_formed("rnbqkbnr/pppppppp/8/8/8/8/PPPPPPPP/RNBQKBNR"));
    assert!(!is_well_formed("rnbqkbnr/pppppppp/8/8/8/8/PPPPPPPP/RNBQKBNR w"));
    assert!(!is_well_formed("rnbqkbnr/pppppppp/8/8/8/8/PPPPPPPP/RNBQKBNR w KQkq"));
    assert_eq!(
        decode("rnbqkbnr/pppppppp/8/8/8/8/PPPPPPPP/RNBQKBNR w KQkq"),
        Err(DecodeError::InvalidPosition)
    );
}

#[test]
fn four_fields_are_enough() {
    let text = "rnbqkbnr/pppppppp/8/8/8/8/PPPPPPPP/RNBQKBNR w KQkq -";
    assert!(is_well_formed(text));
    assert_eq!(decode(text), Ok(Board::default()));
}

#[test]
fn five_and_six_fields_are_accepted() {
    assert!(is_well_formed("rnbqkbnr/pppppppp/8/8/8/8/PPPPPPPP/RNBQKBNR w KQkq - 0"));
    assert!(is_well_formed("rnbqkbnr/pppppppp/8/8/8/8/PPPPPPPP/RNBQKBNR w KQkq - 12 345"));
    assert_eq!(
        decode("rnbqkbnr/pppppppp/8/8/8/8/PPPPPPPP/RNBQKBNR w KQkq - 12 345"),
        Ok(Board::default())
    );
}

#[test]
fn seventh_field_is_rejected() {
    let text = "rnbqkbnr/pppppppp/8/8/8/8/PPPPPPPP/RNBQKBNR w KQkq - 0 1 2";
    assert!(!is_well_formed(text));
    assert_eq!(decode(text), Err(DecodeError::InvalidPosition));
}

#[test]
fn trailing_space_is_rejected() {
    assert!(!is_well_formed("rnbqkbnr/pppppppp/8/8/8/8/PPPPPPPP/RNBQKBNR w KQkq - 0 1 "));
    assert!(!is_well_formed("rnbqkbnr/pppppppp/8/8/8/8/PPPPPPPP/RNBQKBNR w KQkq - "));
    assert!(!is_well_formed("rnbqkbnr/pppppppp/8/8/8/8/PPPPPPPP/RNBQKBNR w KQkq - 0 "));
    assert_eq!(
        decode("rnbqkbnr/pppppppp/8/8/8/8/PPPPPPPP/RNBQKBNR w KQkq - 0 1 "),
        Err(DecodeError::InvalidPosition)
    );
}

#[test]
fn counters_must_be_numbers() {
    assert!(!is_well_formed("rnbqkbnr/pppppppp/8/8/8/8/PPPPPPPP/RNBQKBNR w KQkq - x 1"));
    assert!(!is_well_formed("rnbqkbnr/pppppppp/8/8/8/8/PPPPPPPP/RNBQKBNR w KQkq - 0 1a"));
    assert!(!is_well_formed("rnbqkbnr/pppppppp/8/8/8/8/PPPPPPPP/RNBQKBNR w KQkq - -1 1"));
    assert_eq!(
        decode("rnbqkbnr/pppppppp/8/8/8/8/PPPPPPPP/RNBQKBNR w KQkq - x 1"),
        Err(DecodeError::InvalidPosition)
    );
}

#[test]
fn castling_field_must_name_rights() {
    assert!(is_well_formed("rnbqkbnr/pppppppp/8/8/8/8/PPPPPPPP/RNBQKBNR w - - 0 1"));
    assert!(is_well_formed("rnbqkbnr/pppppppp/8/8/8/8/PPPPPPPP/RNBQKBNR w Kq - 0 1"));
    assert!(is_well_formed("rnbqkbnr/pppppppp/8/8/8/8/PPPPPPPP/RNBQKBNR w k - 0 1"));
    assert!(!is_well_formed("rnbqkbnr/pppppppp/8/8/8/8/PPPPPPPP/RNBQKBNR w KQkqK - 0 1"));
    assert!(!is_well_formed("rnbqkbnr/pppppppp/8/8/8/8/PPPPPPPP/RNBQKBNR w KQx - 0 1"));
    assert!(!is_well_formed("rnbqkbnr/pppppppp/8/8/8/8/PPPPPPPP/RNBQKBNR w -- - 0 1"));
    assert!(!is_well_formed("rnbqkbnr/pppppppp/8/8/8/8/PPPPPPPP/RNBQKBNR w  - 0 1"));
    assert_eq!(
        decode("rnbqkbnr/pppppppp/8/8/8/8/PPPPPPPP/RNBQKBNR w KQx - 0 1"),
        Err(DecodeError::InvalidPosition)
    );
}

#[test]
fn en_passant_field_must_name_a_square() {
    assert!(is_well_formed("rnbqkbnr/pppp2pp/8/4pP2/8/8/PPPP1PPP/RNBQKBNR w KQkq e6 0 3"));
    assert!(!is_well_formed("rnbqkbnr/pppp2pp/8/4pP2/8/8/PPPP1PPP/RNBQKBNR w KQkq e9 0 3"));
    assert!(!is_well_formed("rnbqkbnr/pppp2pp/8/4pP2/8/8/PPPP1PPP/RNBQKBNR w KQkq i6 0 3"));
    assert!(!is_well_formed("rnbqkbnr/pppp2pp/8/4pP2/8/8/PPPP1PPP/RNBQKBNR w KQkq e 0 3"));
    assert!(!is_well_formed("rnbqkbnr/pppp2pp/8/4pP2/8/8/PPPP1PPP/RNBQKBNR w KQkq e66 0 3"));
    assert!(!is_well_formed("rnbqkbnr/pppp2pp/8/4pP2/8/8/PPPP1PPP/RNBQKBNR w KQkq  0 3"));
    assert_eq!(
        decode("rnbqkbnr/pppp2pp/8/4pP2/8/8/PPPP1PPP/RNBQKBNR w KQkq e9 0 3"),
        Err(DecodeError::InvalidPosition)
    );
}

#[test]
fn en_passant_target_is_kept() {
    let board = decode("rnbqkbnr/pppp2pp/8/4pP2/8/8/PPPP1PPP/RNBQKBNR w KQkq e6 0 3")
        .expect("a valid position");
    assert_eq!(board.en_passant(), Some(Square::E5));
    let plain = decode("rnbqkbnr/pppp2pp/8/4pP2/8/8/PPPP1PPP/RNBQKBNR w KQkq - 0 3")
        .expect("a valid position");
    assert_eq!(plain.en_passant(), None);
    assert_ne!(board, plain);
}

#[test]
fn either_case_names_the_side() {
    assert_eq!(
        decode("rnbqkbnr/pppppppp/8/8/8/8/PPPPPPPP/RNBQKBNR W KQkq - 0 1"),
        Ok(Board::default())
    );
    let board = decode("rnbqkbnr/pppppppp/8/8/4P3/8/PPPP1PPP/RNBQKBNR B KQkq - 0 1")
        .expect("a valid position");
    assert_eq!(board.side_to_move(), Color::Black);
}

#[test]
fn text_outside_ascii_is_rejected() {
    let text = "rnbqkbnr/pppppppp/8/8/8/8/PPPPPPPP/RNBQKBNR w KQkq \u{2013} 0 1";
    assert!(!is_well_formed(text));
    assert_eq!(decode(text), Err(DecodeError::InvalidPosition));
}

#[test]
fn black_to_move_is_kept() {
    let text = "rnbqkbnr/pppppppp/8/8/4P3/8/PPPP1PPP/RNBQKBNR b KQkq - 0 1";
    let board = decode(text).expect("a valid position");
    assert_eq!(board.side_to_move(), Color::Black);
    assert_eq!(board.piece_on(Square::E4), Some(Piece::Pawn));
    assert_eq!(board.piece_on(Square::E2), None);
    assert_eq!(board, Board::from_str(text).expect("a valid position"));
}

#[test]
fn decoded_board_survives_a_round_trip() {
    let texts = [
        START,
        "rnbqkbnr/pppppppp/8/8/4P3/8/PPPP1PPP/RNBQKBNR b KQkq - 0 1",
        "rnbqkbnr/pppp2pp/8/4pP2/8/8/PPPP1PPP/RNBQKBNR w KQkq e6 0 3",
        "r3k2r/8/8/8/8/8/8/R3K2R w Kq - 4 20",
        "8/5k2/8/8/8/2K5/6Q1/8 b - - 10 60",
    ];
    for text in texts {
        let board = decode(text).expect("a valid position");
        let written = board.to_string();
        let again = decode(&written).expect("the board's own text is valid");
        assert_eq!(again, board);
        assert_eq!(again.side_to_move(), board.side_to_move());
        assert_eq!(again.castle_rights(Color::White), board.castle_rights(Color::White));
        assert_eq!(again.castle_rights(Color::Black), board.castle_rights(Color::Black));
        assert_eq!(again.en_passant(), board.en_passant());
        assert_eq!(again.combined(), board.combined());
    }
}

#[test]
fn settle_keeps_a_board_and_names_any_refusal() {
    assert_eq!(settle(Ok(Board::default())), Ok(Board::default()));
    assert_eq!(settle(Err(chess::Error::InvalidBoard)), Err(DecodeError::InvalidPosition));
    assert_eq!(
        settle(Err(chess::Error::InvalidFen { fen: String::from("x") })),
        Err(DecodeError::InvalidPosition)
    );
}
