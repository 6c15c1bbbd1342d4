use ostseeschach::conversion::{FromDeserializable, FromSerializable, ToSerializable};
use ostseeschach::coordinates::Coordinates;
use ostseeschach::enums::{DataClass, PieceType, PlayerTeam};
use ostseeschach::error::Error;
use ostseeschach::framing::{is_message_complete, strip_protocol_marker, wrap_envelope, FrameStatus, MessageAccumulator};
use ostseeschach::game_result::GameResult;
use ostseeschach::game_state::GameState;
use ostseeschach::logic::{ClientState, Logic};
use ostseeschach::message::{ClientSideMessage, ServerSideMessage};
use ostseeschach::moves::Move;
use ostseeschach::xml_client;
use ostseeschach::xml_data::{Data, Left, Received, Room};
use ostseeschach::xml_result::Winner;
use ostseeschach::xml_state::{
    Ambers, AmbersEntry, Board as XmlBoard, Coordinates as XmlCoordinates, From as XmlFrom, Int, LastMove,
    Piece as XmlPiece, Pieces, PiecesEntry, StartTeam, State, Team, To as XmlTo,
};
use quick_xml::events::Event;
use quick_xml::Reader;

fn entry(x: i32, y: i32, kind: PieceType, team: PlayerTeam, count: i32) -> PiecesEntry {
    PiecesEntry { coordinates: XmlCoordinates { x, y }, piece: XmlPiece { piece_type: kind, team, count } }
}

fn amber(team: PlayerTeam, value: i32) -> AmbersEntry {
    AmbersEntry { team: Team { team }, int: Int { value } }
}

fn snapshot(entries: Vec<PiecesEntry>, ambers: Vec<AmbersEntry>, turn: i32) -> State {
    State {
        start_team: StartTeam { team: PlayerTeam::Two },
        board: XmlBoard { pieces: Pieces { entries } },
        last_move: Some(LastMove { from: XmlFrom { x: 1, y: 2 }, to: XmlTo { x: 2, y: 3 } }),
        ambers: Ambers { enum_type: String::from("team"), entries: ambers },
        turn,
    }
}

fn data(class: &str) -> Data {
    Data { class: String::from(class), state: None, color: None, definition: None, scores: None, winner: None }
}

fn envelope(data: Data) -> Received {
    Received { left: None, rooms: vec![Room { data, room_id: String::from("room-7") }] }
}

fn move_message(fx: i32, fy: i32, tx: i32, ty: i32) -> ClientSideMessage {
    ClientSideMessage::Move {
        sent_move: Move { from: Coordinates::new(fx, fy), to: Coordinates::new(tx, ty) },
        room_id: String::from("abc"),
    }
}

#[test]
fn join_messages_render() {
    assert_eq!(ClientSideMessage::JoinAnyGame.to_xml().unwrap(), "<protocol><join />");
    let prepared = ClientSideMessage::join_request(Some(String::from("CODE1")));
    assert_eq!(prepared, ClientSideMessage::JoinPreparedGame { reservation: String::from("CODE1") });
    assert_eq!(prepared.to_xml().unwrap(), "<protocol><joinPrepared reservationCode=\"CODE1\" />");
    assert_eq!(ClientSideMessage::join_request(None), ClientSideMessage::JoinAnyGame);
}

#[test]
fn move_message_renders() {
    assert_eq!(
        move_message(0, 7, 12, -3).to_xml().unwrap(),
        "<room roomId=\"abc\"><data class=\"move\"><from x=\"0\" y=\"7\"/><to x=\"12\" y=\"-3\"/></data></room>"
    );
    assert_eq!(
        move_message(i32::MIN, 100, 9, 2147483647).to_xml().unwrap(),
        "<room roomId=\"abc\"><data class=\"move\"><from x=\"-2147483648\" y=\"100\"/><to x=\"9\" y=\"2147483647\"/></data></room>"
    );
}

fn parse_move_coordinates(text: &str) -> (XmlFrom, XmlTo) {
    let mut reader = Reader::from_str(text);
    let mut buf = Vec::new();
    let mut from = None;
    let mut to = None;
    loop {
        match reader.read_event(&mut buf).unwrap() {
            Event::Empty(e) => {
                let mut x = 0;
                let mut y = 0;
                for attr in e.attributes() {
                    let attr = attr.unwrap();
                    let value: i32 = std::str::from_utf8(&attr.value).unwrap().parse().unwrap();
                    match attr.key {
                        b"x" => x = value,
                        b"y" => y = value,
                        _ => {}
                    }
                }
                match e.name() {
                    b"from" => from = Some(XmlFrom { x, y }),
                    b"to" => to = Some(XmlTo { x, y }),
                    _ => {}
                }
            }
            Event::Eof => break,
            _ => {}
        }
        buf.clear();
    }
    (from.unwrap(), to.unwrap())
}

#[test]
fn move_message_round_trip() {
    let text = move_message(0, 0, 1, 1).to_xml().unwrap();
    let (from, to) = parse_move_coordinates(&text);
    assert_eq!(Coordinates::from_serializable(&from), Coordinates::new(0, 0));
    assert_eq!(Coordinates::from_serializable(&to), Coordinates::new(1, 1));
}

#[test]
fn move_to_serializable() {
    let m = Move { from: Coordinates::new(2, 3), to: Coordinates::new(4, 5) };
    let s = m.to_serializable();
    assert_eq!(s, xml_client::Move { from: xml_client::From { x: 2, y: 3 }, to: xml_client::To { x: 4, y: 5 } });
    let lm = LastMove { from: XmlFrom { x: 6, y: 1 }, to: XmlTo { x: 7, y: 0 } };
    assert_eq!(Move::from_serializable(&lm), Move { from: Coordinates::new(6, 1), to: Coordinates::new(7, 0) });
}

#[test]
fn framing_completes_on_room_close() {
    assert!(is_message_complete(b"<room roomId=\"1\"><data class=\"moveRequest\"/></room>"));
    assert!(!is_message_complete(b"<room roomId=\"1\"><data class=\"moveRequest\"/></roo"));
    assert!(is_message_complete(b"<left roomId=\"1\"/>"));
    assert!(is_message_complete(b"xx<left roomId=\"1\"/> trailing"));
    assert!(!is_message_complete(b""));
    assert!(!is_message_complete(b"</room> "));
}

#[test]
fn framing_across_partial_reads() {
    let mut acc = MessageAccumulator::new();
    assert_eq!(acc.feed(b"<room roomId=\"1\"><data class=\"moveRequest\"/></roo"), FrameStatus::Incomplete);
    assert_eq!(acc.feed(b""), FrameStatus::Incomplete);
    assert_eq!(
        acc.feed(b"m>"),
        FrameStatus::Complete(String::from(
            "<received><room roomId=\"1\"><data class=\"moveRequest\"/></room></received>"
        ))
    );
    assert!(acc.buffer.is_empty());
    assert_eq!(acc.feed(b"<le"), FrameStatus::Incomplete);
    assert_eq!(acc.feed(b"ft roomId=\"9\"/>"), FrameStatus::Complete(String::from("<received><left roomId=\"9\"/></received>")));
}

#[test]
fn framing_rejects_invalid_utf8() {
    let mut acc = MessageAccumulator::new();
    assert_eq!(acc.feed(&[0xff, 0xfe, b'<', b'/', b'r', b'o', b'o', b'm', b'>']), FrameStatus::Malformed);
    assert!(acc.buffer.is_empty());
}

#[test]
fn envelope_wraps_text() {
    assert_eq!(wrap_envelope("<left/>"), "<received><left/></received>");
    assert_eq!(wrap_envelope(""), "<received></received>");
}

#[test]
fn handshake_marker() {
    assert_eq!(
        strip_protocol_marker(b"<protocol>\n  <joined roomId=\"r1\"/>"),
        Ok(String::from("  <joined roomId=\"r1\"/>"))
    );
    assert_eq!(strip_protocol_marker(b"<protocol><joined/>"), Ok(String::from("<joined/>")));
    assert_eq!(
        strip_protocol_marker(b"<protoco"),
        Err(Error::MissingProtocolMarker(b"<protoco".to_vec()))
    );
    assert_eq!(strip_protocol_marker(b"<protocol>\xff"), Err(Error::InvalidUtf8));
}

#[test]
fn data_class_names() {
    assert_eq!(DataClass::from_name(&String::from("welcomeMessage")), Some(DataClass::WelcomeMessage));
    assert_eq!(DataClass::from_name(&String::from("memento")), Some(DataClass::Memento));
    assert_eq!(DataClass::from_name(&String::from("moveRequest")), Some(DataClass::MoveRequest));
    assert_eq!(DataClass::from_name(&String::from("result")), Some(DataClass::Result));
    assert_eq!(DataClass::from_name(&String::from("error")), Some(DataClass::Error));
    assert_eq!(DataClass::from_name(&String::from("Memento")), None);
    assert_eq!(DataClass::from_name(&String::from("")), None);
}

#[test]
fn decode_snapshot() {
    let state = snapshot(
        vec![
            entry(0, 0, PieceType::Robbe, PlayerTeam::One, 1),
            entry(7, 7, PieceType::Moewe, PlayerTeam::Two, 2),
        ],
        vec![amber(PlayerTeam::One, 1), amber(PlayerTeam::Two, 0)],
        12,
    );
    let g = GameState::from_deserializable(&state).unwrap();
    assert_eq!(g.start_team, PlayerTeam::Two);
    assert_eq!(g.turn, 12);
    assert_eq!(g.ambers, (1, 0));
    assert_eq!(g.last_move, Some(Move { from: Coordinates::new(1, 2), to: Coordinates::new(2, 3) }));
    assert_eq!(g.board.get_piece_at(&Coordinates::new(7, 7)).unwrap().count, 2);
    assert_eq!(g.board.get_piece_at(&Coordinates::new(0, 0)).unwrap().piece_type, PieceType::Robbe);
    assert_eq!(g.board.get_pieces_for_team(PlayerTeam::One).len(), 1);
    assert_eq!(g.get_current_team(), PlayerTeam::Two);
}

#[test]
fn decode_snapshot_errors() {
    let off_board = snapshot(vec![entry(8, 0, PieceType::Robbe, PlayerTeam::One, 1)], vec![], 0);
    assert_eq!(GameState::from_deserializable(&off_board).unwrap_err(), Error::OutOfBounds(8, 0));
    let bad_count = snapshot(vec![entry(1, 0, PieceType::Robbe, PlayerTeam::One, 3)], vec![], 0);
    assert_eq!(GameState::from_deserializable(&bad_count).unwrap_err(), Error::InvalidCount(3));
    let negative_turn = snapshot(vec![], vec![], -1);
    assert_eq!(GameState::from_deserializable(&negative_turn).unwrap_err(), Error::NegativeValue(-1));
    let negative_amber = snapshot(vec![], vec![amber(PlayerTeam::Two, -4)], 3);
    assert_eq!(GameState::from_deserializable(&negative_amber).unwrap_err(), Error::NegativeValue(-4));
}

#[test]
fn decode_piece_and_result() {
    let e = entry(3, 4, PieceType::Seestern, PlayerTeam::Two, 1);
    let p = ostseeschach::piece::Piece::from_deserializable(&e).unwrap();
    assert_eq!(p.coordinates, Coordinates::new(3, 4));
    assert_eq!(p.team, PlayerTeam::Two);
    let mut d = data("result");
    d.winner = Some(Winner { team: PlayerTeam::One });
    assert_eq!(GameResult::from_deserializable(&d), Ok(GameResult { winner_team: Some(PlayerTeam::One) }));
    assert_eq!(
        Coordinates::from_deserializable(&XmlCoordinates { x: -1, y: 9 }),
        Ok(Coordinates::new(-1, 9))
    );
}

#[test]
fn decode_server_messages() {
    let left = Received { left: Some(Left { room_id: String::from("r") }), rooms: vec![] };
    assert!(matches!(ServerSideMessage::from_received(&left), Ok(ServerSideMessage::Left)));
    let mut welcome = data("welcomeMessage");
    welcome.color = Some(PlayerTeam::Two);
    match ServerSideMessage::from_received(&envelope(welcome)) {
        Ok(ServerSideMessage::WelcomeMessage { room_id, own_team }) => {
            assert_eq!(room_id, "room-7");
            assert_eq!(own_team, Some(PlayerTeam::Two));
        }
        other => panic!("unexpected {:?}", other),
    }
    assert!(matches!(
        ServerSideMessage::from_received(&envelope(data("moveRequest"))),
        Ok(ServerSideMessage::MoveRequest)
    ));
    assert!(matches!(ServerSideMessage::from_received(&envelope(data("error"))), Ok(ServerSideMessage::Error)));
    match ServerSideMessage::from_received(&envelope(data("result"))) {
        Ok(ServerSideMessage::Result { result }) => assert_eq!(result.winner_team, None),
        other => panic!("unexpected {:?}", other),
    }
    let mut memento = data("memento");
    memento.state = Some(snapshot(vec![entry(2, 2, PieceType::Moewe, PlayerTeam::One, 1)], vec![], 5));
    match ServerSideMessage::from_received(&envelope(memento)) {
        Ok(ServerSideMessage::Memento { game_state }) => assert_eq!(game_state.turn, 5),
        other => panic!("unexpected {:?}", other),
    }
}

#[test]
fn decode_server_message_errors() {
    assert!(matches!(
        ServerSideMessage::from_received(&envelope(data("surprise"))),
        Err(Error::UnknownDataClass(c)) if c == "surprise"
    ));
    assert!(matches!(
        ServerSideMessage::from_received(&envelope(data("memento"))),
        Err(Error::MissingPayload(DataClass::Memento))
    ));
    let empty = Received { left: None, rooms: vec![] };
    assert!(matches!(ServerSideMessage::from_received(&empty), Err(Error::EmptyEnvelope)));
    let mut memento = data("memento");
    memento.state = Some(snapshot(vec![], vec![], -2));
    assert!(matches!(
        ServerSideMessage::from_received(&envelope(memento)),
        Err(Error::NegativeValue(-2))
    ));
}

fn game_with_one_move() -> GameState {
    let state = snapshot(
        vec![
            entry(0, 0, PieceType::Herzmuschel, PlayerTeam::Two, 1),
            entry(7, 0, PieceType::Herzmuschel, PlayerTeam::One, 1),
        ],
        vec![],
        0,
    );
    GameState::from_deserializable(&state).unwrap()
}

#[test]
fn logic_answers_move_request() {
    let mut logic = Logic::new();
    let mut welcome = data("welcomeMessage");
    welcome.color = Some(PlayerTeam::Two);
    let msg = ServerSideMessage::from_received(&envelope(welcome)).unwrap();
    let (state, reply) = logic.process_server_side_message(msg);
    assert_eq!(state, ClientState::Running);
    assert!(reply.is_none());
    assert_eq!(logic.room_id.as_deref(), Some("room-7"));
    // Before any snapshot there is no move to make.
    let (state, reply) = logic.process_server_side_message(ServerSideMessage::MoveRequest);
    assert_eq!(state, ClientState::Running);
    assert!(reply.is_none());
    let (_, reply) = logic.process_server_side_message(ServerSideMessage::Memento { game_state: game_with_one_move() });
    assert!(reply.is_none());
    // Team two's only piece stands on (0, 0), and both of its forward moves
    // leave the board.
    let (_, reply) = logic.process_server_side_message(ServerSideMessage::MoveRequest);
    assert!(reply.is_none());
}

#[test]
fn logic_sends_the_only_legal_move() {
    let mut logic = Logic::new();
    let mut welcome = data("welcomeMessage");
    welcome.color = Some(PlayerTeam::Two);
    logic.process_server_side_message(ServerSideMessage::from_received(&envelope(welcome)).unwrap());
    let state = snapshot(vec![entry(7, 0, PieceType::Herzmuschel, PlayerTeam::Two, 1)], vec![], 0);
    let game_state = GameState::from_deserializable(&state).unwrap();
    logic.process_server_side_message(ServerSideMessage::Memento { game_state });
    for _ in 0..10 {
        let (state, reply) = logic.process_server_side_message(ServerSideMessage::MoveRequest);
        assert_eq!(state, ClientState::Running);
        assert_eq!(
            reply,
            Some(ClientSideMessage::Move {
                sent_move: Move { from: Coordinates::new(7, 0), to: Coordinates::new(6, 1) },
                room_id: String::from("room-7"),
            })
        );
    }
}

#[test]
fn logic_stops_on_left_and_error() {
    let mut logic = Logic::new();
    assert_eq!(logic.process_server_side_message(ServerSideMessage::Left).0, ClientState::ShouldTerminate);
    assert_eq!(logic.process_server_side_message(ServerSideMessage::Error).0, ClientState::ShouldTerminate);
    let reply = logic.move_reply(Some(Move { from: Coordinates::new(0, 0), to: Coordinates::new(1, 1) }));
    assert!(reply.is_none());
}
