//! The rules oracle: the engine's only window onto chess itself.
//!
//! Positions are carried as their FEN serialization, so that every peer that
//! replays a chain derives byte-identical state. The oracle is consumed
//! through a small set of trusted wrappers around the `chess` crate; what a
//! wrapper returns is named by an uninterpreted spec function of its
//! arguments, which is exactly the determinism the engine needs: the same
//! position and move give the same answer on every peer.

use vstd::prelude::*;
use vstd::string::StrSliceExecFns;

verus! {

/// One of the two sides of a chess game.
#[derive(Clone, Copy, Debug, PartialEq, Eq, Structural)]
pub enum Side {
    White,
    Black,
}

/// A piece a pawn may be promoted to.
#[derive(Clone, Copy, Debug, PartialEq, Eq, Structural)]
pub enum PromotionPiece {
    Queen,
    Rook,
    Knight,
    Bishop,
}

/// The oracle's terminal classification of a position. `Checkmate` carries
/// the side that is mated, i.e. the loser.
#[derive(Clone, Copy, Debug, PartialEq, Eq, Structural)]
pub enum PositionStatus {
    Ongoing,
    Stalemate,
    Checkmate(Side),
}

/// Whether `chess::Board::from_str` accepts `s` as a position.
pub uninterp spec fn is_board(s: Seq<char>) -> bool;

/// Whether the move `from -> to` (squares as indices `8 * rank + file`),
/// with the given promotion, is legal on `board`.
pub uninterp spec fn move_ok(
    board: Seq<char>,
    from: int,
    to: int,
    promotion: Option<PromotionPiece>,
) -> bool;

/// The serialization of the position reached by playing `from -> to` on
/// `board`.
pub uninterp spec fn board_after(
    board: Seq<char>,
    from: int,
    to: int,
    promotion: Option<PromotionPiece>,
) -> Seq<char>;

/// The terminal classification of `board`.
pub uninterp spec fn status_of(board: Seq<char>) -> PositionStatus;

/// A serialized position the engine is willing to hand to the oracle:
/// ASCII (the oracle's parser may panic on anything else) and accepted by it.
pub open spec fn valid_board(s: Seq<char>) -> bool {
    vstd::utf8::is_ascii_chars(s) && is_board(s)
}

/// The serialization of the initial position.
pub open spec fn initial_board_fen() -> Seq<char> {
    "rnbqkbnr/pppppppp/8/8/8/8/PPPPPPPP/RNBQKBNR w KQkq - 0 1"@
}

/// Relies on `chess::Board::default` and the `Display` impl of
/// `chess::Board`: the initial position, serialized as FEN. The output is
/// ASCII and parses back with `chess::Board::from_str`.
#[verifier::external_body]
pub(crate) fn initial_board() -> (r: String)
    ensures
        r@ == initial_board_fen(),
        valid_board(r@),
{
    chess::Board::default().to_string()
}

/// Relies on `chess::Board::from_str`: whether `s` names a position. The
/// ASCII precondition keeps out inputs on which that parser would panic
/// while splitting characters.
#[verifier::external_body]
pub(crate) fn board_parses(s: &str) -> (r: bool)
    requires
        vstd::string::is_ascii(s),
    ensures
        r == is_board(s@),
{
    <chess::Board as core::str::FromStr>::from_str(s).is_ok()
}

/// Relies on `chess::Board::legal` (with `chess::ChessMove::new` and the
/// `chess::ALL_SQUARES` table): whether the move is legal on `board`.
#[verifier::external_body]
pub(crate) fn legal_move(board: &str, from: u8, to: u8, promotion: Option<PromotionPiece>) -> (r:
    bool)
    requires
        valid_board(board@),
        from < 64,
        to < 64,
    ensures
        r == move_ok(board@, from as int, to as int, promotion),
{
    let b = <chess::Board as core::str::FromStr>::from_str(board).unwrap();
    let p = match promotion {
        None => None,
        Some(PromotionPiece::Queen) => Some(chess::Piece::Queen),
        Some(PromotionPiece::Rook) => Some(chess::Piece::Rook),
        Some(PromotionPiece::Knight) => Some(chess::Piece::Knight),
        Some(PromotionPiece::Bishop) => Some(chess::Piece::Bishop),
    };
    let m = chess::ChessMove::new(
        chess::ALL_SQUARES[from as usize],
        chess::ALL_SQUARES[to as usize],
        p,
    );
    b.legal(m)
}

/// Relies on `chess::Board::make_move_new` and the `Display` impl of
/// `chess::Board`: the position after a legal move, serialized as FEN. The
/// output is ASCII and parses back with `chess::Board::from_str`; legality
/// is required because `make_move_new` may panic on an illegal move. Note
/// that this writer records a capturable en-passant square as the moved
/// pawn's own square rather than the crossed one; the serialization is
/// self-consistent with the same crate's parser, which is all the engine
/// relies on.
#[verifier::external_body]
pub(crate) fn apply_to_board(board: &str, from: u8, to: u8, promotion: Option<PromotionPiece>) -> (r:
    String)
    requires
        valid_board(board@),
        from < 64,
        to < 64,
        move_ok(board@, from as int, to as int, promotion),
    ensures
        r@ == board_after(board@, from as int, to as int, promotion),
        valid_board(r@),
{
    let b = <chess::Board as core::str::FromStr>::from_str(board).unwrap();
    let p = match promotion {
        None => None,
        Some(PromotionPiece::Queen) => Some(chess::Piece::Queen),
        Some(PromotionPiece::Rook) => Some(chess::Piece::Rook),
        Some(PromotionPiece::Knight) => Some(chess::Piece::Knight),
        Some(PromotionPiece::Bishop) => Some(chess::Piece::Bishop),
    };
    let m = chess::ChessMove::new(
        chess::ALL_SQUARES[from as usize],
        chess::ALL_SQUARES[to as usize],
        p,
    );
    b.make_move_new(m).to_string()
}

/// Relies on `chess::Board::status` and `chess::Board::side_to_move`: the
/// terminal classification of `board`; on checkmate the side to move is the
/// mated one.
#[verifier::external_body]
pub(crate) fn board_status(board: &str) -> (r: PositionStatus)
    requires
        valid_board(board@),
    ensures
        r == status_of(board@),
{
    let b = <chess::Board as core::str::FromStr>::from_str(board).unwrap();
    match b.status() {
        chess::BoardStatus::Ongoing => PositionStatus::Ongoing,
        chess::BoardStatus::Stalemate => PositionStatus::Stalemate,
        chess::BoardStatus::Checkmate => match b.side_to_move() {
            chess::Color::White => PositionStatus::Checkmate(Side::White),
            chess::Color::Black => PositionStatus::Checkmate(Side::Black),
        },
    }
}

/// The square index named by the first two characters of `s`: file `a`-`h`
/// then rank `1`-`8`, as the oracle's own square parser reads it (trailing
/// characters are ignored).
pub open spec fn square_index_spec(s: Seq<char>) -> Option<int> {
    if s.len() >= 2 && 'a' <= s[0] <= 'h' && '1' <= s[1] <= '8' {
        Some(8 * (s[1] as int - '1' as int) + (s[0] as int - 'a' as int))
    } else {
        None
    }
}

/// Parse a square name into its index, `8 * rank + file`.
pub fn parse_square(s: &str) -> (r: Option<u8>)
    ensures
        match r {
            Some(i) => square_index_spec(s@) == Some(i as int) && i < 64,
            None => square_index_spec(s@) is None,
        },
{
    if s.unicode_len() < 2 {
        return None;
    }
    let c0 = s.get_char(0);
    let c1 = s.get_char(1);
    if 'a' <= c0 && c0 <= 'h' && '1' <= c1 && c1 <= '8' {
        Some(8 * (c1 as u8 - '1' as u8) + (c0 as u8 - 'a' as u8))
    } else {
        None
    }
}

} // verus!
