use voxelland::chunk::ChunkSystem;
use voxelland::persist::decode_overrides;
use voxelland::server::{Response, Server};
use voxelland::server_types::{Message, MessageType};
use voxelland::vec::{IVec2, IVec3};

fn ids(server: &Server) -> Vec<u128> {
    let mut ids = server.client_ids();
    ids.sort();
    ids
}

fn sorted(mut ids: Vec<u128>) -> Vec<u128> {
    ids.sort();
    ids
}

fn server_with(ids: &[u128]) -> Server {
    let mut server = Server::new(ChunkSystem::new(1, 1234, 0));
    for id in ids {
        assert!(server.connect(*id).is_some());
    }
    server
}

fn bits(x: f32) -> u32 {
    x.to_bits()
}

fn frame(kind: MessageType, x: f32, y: f32, z: f32, info: u32) -> Vec<u8> {
    Message::new(kind, bits(x), bits(y), bits(z), 0, info).encode().unwrap()
}

fn quiet(r: &Response) -> bool {
    r.reply.is_none() && !r.save && !r.rebroadcast && r.recipients.is_empty()
}

#[test]
fn new_connection_gets_one_identity_message_first() {
    let mut server = Server::new(ChunkSystem::new(1, 0, 0));
    let id = 0x0123_4567_89ab_cdef_0011_2233_4455_6677u128;
    let greeting = server.connect(id).unwrap();
    let m = Message::decode(&greeting).unwrap();
    assert_eq!(m.message_type, MessageType::YourId);
    let pair: (u64, u64) = bincode::deserialize(&m.payload).unwrap();
    assert_eq!(pair, ((id >> 64) as u64, id as u64));
    assert_eq!(m.payload.len(), 16);
    assert_eq!(greeting.len(), 28 + 16);
    assert_eq!(ids(&server), sorted(vec![id]));
    // The identifier is taken: no second greeting, no second session.
    assert!(server.connect(id).is_none());
    assert_eq!(ids(&server), sorted(vec![id]));
    // Whatever the client sends afterwards, no answer is an identity message.
    for kind in [
        MessageType::Noop,
        MessageType::RequestUdm,
        MessageType::RequestSeed,
        MessageType::RequestPt,
        MessageType::PlayerUpdate,
        MessageType::BlockSet,
        MessageType::MobUpdate,
        MessageType::TimeUpdate,
        MessageType::ShutUpMobMsgs,
    ] {
        let r = server.handle(id, &frame(kind, 0.0, 0.0, 0.0, 0));
        assert_ne!(r.reply, Some(MessageType::YourId));
        assert_eq!(r.kind, kind);
    }
}

#[test]
fn accepted_clients_get_identifiers_of_their_own() {
    let mut server = Server::new(ChunkSystem::new(1, 0, 0));
    let mut seen = Vec::new();
    for _ in 0..50 {
        let (id, greeting) = server.accept().unwrap();
        assert!(!seen.contains(&id));
        let m = Message::decode(&greeting).unwrap();
        assert_eq!(m.message_type, MessageType::YourId);
        assert_eq!(m.payload, Message::your_id(id).payload);
        // The identifier is a random one as the standard lays them out.
        let u = uuid::Uuid::from_u128(id);
        assert_eq!(u.get_version_num(), 4);
        assert_eq!(server.client(id).unwrap().errorstrikes, 0);
        seen.push(id);
        assert_eq!(server.client_count(), seen.len());
    }
    assert_eq!(ids(&server), sorted(seen));
}

#[test]
fn block_mutation_changes_the_world_and_goes_to_everyone() {
    let mut server = server_with(&[10, 20, 30]);
    let sent = frame(MessageType::BlockSet, 1.0, 2.0, 3.0, 5);
    let r = server.handle(20, &sent);
    assert_eq!(r.kind, MessageType::BlockSet);
    assert!(r.save);
    assert!(r.rebroadcast);
    assert_eq!(sorted(r.recipients.clone()), vec![10, 20, 30]);
    assert_eq!(r.reply, None);
    // The server's own lookup gives the block, whatever the generator says.
    assert_eq!(server.chunksys().blockat(IVec3::new(1, 2, 3), 0), 5);
    assert_eq!(server.chunksys().blockat(IVec3::new(1, 2, 3), 9), 5);
    // What is written out holds it.
    let files = server.chunksys().save_current_world();
    assert_eq!(decode_overrides(&files.udm), Some(vec![((1, 2, 3), 5)]));
    assert_eq!(files.seed, b"1234".to_vec());
    assert_eq!(files.pt, b"0".to_vec());
    // The bytes that go out are the bytes that came in.
    assert_eq!(Message::decode(&sent).unwrap().info, 5);
}

#[test]
fn block_mutation_takes_the_whole_part_of_each_coordinate() {
    let mut server = server_with(&[1]);
    server.handle(1, &frame(MessageType::BlockSet, -7.9, 127.5, 1e12, 8));
    assert_eq!(server.chunksys().override_at(IVec3::new(-7, 127, i32::MAX)), Some(8));
    server.handle(1, &frame(MessageType::BlockSet, f32::NAN, -0.0, -1e12, 0));
    assert_eq!(server.chunksys().override_at(IVec3::new(0, 0, i32::MIN)), Some(0));
}

#[test]
fn later_mutation_of_a_voxel_wins() {
    let mut server = server_with(&[1, 2]);
    server.handle(1, &frame(MessageType::BlockSet, 4.0, 5.0, 6.0, 3));
    server.handle(2, &frame(MessageType::BlockSet, 4.0, 5.0, 6.0, 9));
    assert_eq!(server.chunksys().blockat(IVec3::new(4, 5, 6), 1), 9);
}

#[test]
fn block_mutation_on_the_server_queues_no_rebuild() {
    let mut server = Server::new(ChunkSystem::new(1, 0, 0));
    server.connect(1);
    server.handle(1, &frame(MessageType::BlockSet, 1.0, 2.0, 3.0, 5));
    assert_eq!(server.chunksys().resident(IVec2::new(0, 0)), None);
}

#[test]
fn five_read_faults_in_a_row_remove_the_client() {
    let mut server = server_with(&[10, 20, 30]);
    server.handle(10, &frame(MessageType::PlayerUpdate, 1.0, 2.0, 3.0, 0));
    for n in 1..=4 {
        assert!(!server.read_fault(20));
        assert_eq!(server.client(20).unwrap().errorstrikes, n);
    }
    assert!(server.read_fault(20));
    assert!(server.client(20).is_none());
    assert_eq!(ids(&server), sorted(vec![10, 30]));
    // The others are as they were.
    assert_eq!(server.client(10).unwrap().errorstrikes, 0);
    assert_eq!(server.known_camera(10), Some((bits(1.0), bits(2.0), bits(3.0))));
    assert_eq!(server.client(30).unwrap().errorstrikes, 0);
    let r = server.handle(30, &frame(MessageType::TimeUpdate, 0.0, 0.0, 0.0, 0));
    assert_eq!(sorted(r.recipients.clone()), vec![10, 30]);
    // A fault of somebody who is gone is nobody's.
    assert!(!server.read_fault(20));
    assert_eq!(ids(&server), sorted(vec![10, 30]));
}

#[test]
fn a_good_read_forgives_the_faults_before_it() {
    let mut server = server_with(&[7]);
    for _ in 0..4 {
        assert!(!server.read_fault(7));
    }
    server.handle(7, &frame(MessageType::TimeUpdate, 0.0, 0.0, 0.0, 0));
    assert_eq!(server.client(7).unwrap().errorstrikes, 0);
    for _ in 0..4 {
        assert!(!server.read_fault(7));
    }
    assert!(server.client(7).is_some());
    assert!(server.read_fault(7));
    assert!(server.client(7).is_none());
}

#[test]
fn closed_stream_removes_the_client() {
    let mut server = server_with(&[1, 2, 3]);
    assert!(server.disconnect(2));
    assert_eq!(ids(&server), sorted(vec![1, 3]));
    assert!(!server.disconnect(2));
    assert!(server.client(3).is_some());
    assert!(server.client(2).is_none());
    assert_eq!(server.client_count(), 2);
    // The identifier is free again.
    assert!(server.connect(2).is_some());
    assert_eq!(ids(&server), sorted(vec![1, 3, 2]));
}

#[test]
fn requests_are_answered_and_not_passed_on() {
    let mut server = server_with(&[1, 2]);
    for (asked, owed) in [
        (MessageType::RequestUdm, MessageType::Udm),
        (MessageType::RequestSeed, MessageType::Seed),
        (MessageType::RequestPt, MessageType::Pt),
    ] {
        let r = server.handle(1, &frame(asked, 0.0, 0.0, 0.0, 0));
        assert_eq!(r.kind, asked);
        assert_eq!(r.reply, Some(owed));
        assert!(!r.save);
        assert!(!r.rebroadcast);
        assert!(r.recipients.is_empty());
    }
}

#[test]
fn answers_carry_the_blob_behind_its_length() {
    let files = ChunkSystem::new(1, 31337, 1).save_current_world();
    let bytes = Server::frame_reply(MessageType::Seed, &files.seed).unwrap();
    let m = Message::decode(&bytes).unwrap();
    assert_eq!(m.message_type, MessageType::Seed);
    let text: String = bincode::deserialize(&m.payload).unwrap();
    assert_eq!(text, "31337");
    assert_eq!(bytes.len(), 28 + 8 + 5);
    let bytes = Server::frame_reply(MessageType::Pt, &files.pt).unwrap();
    let text: String = bincode::deserialize(&Message::decode(&bytes).unwrap().payload).unwrap();
    assert_eq!(text, "1");
    let bytes = Server::frame_reply(MessageType::Udm, &files.udm).unwrap();
    assert_eq!(Message::decode(&bytes).unwrap().payload, vec![0; 8]);
    assert!(Server::frame_reply(MessageType::RequestSeed, &files.seed).is_none());
    assert!(Server::frame_reply(MessageType::Noop, &files.seed).is_none());
}

#[test]
fn position_reports_are_kept_per_client_and_the_last_one_counts() {
    let mut server = server_with(&[1, 2]);
    assert_eq!(server.known_camera(1), None);
    let r = server.handle(1, &frame(MessageType::PlayerUpdate, 1.5, 64.0, -3.25, 0));
    assert!(r.rebroadcast && !r.save);
    assert_eq!(sorted(r.recipients.clone()), vec![1, 2]);
    assert_eq!(server.known_camera(1), Some((bits(1.5), bits(64.0), bits(-3.25))));
    assert_eq!(server.known_camera(2), None);
    server.handle(2, &frame(MessageType::PlayerUpdate, 9.0, 9.0, 9.0, 0));
    server.handle(1, &frame(MessageType::PlayerUpdate, 2.5, 65.0, -4.25, 0));
    server.handle(1, &frame(MessageType::TimeUpdate, 0.0, 0.0, 0.0, 0));
    assert_eq!(server.known_camera(1), Some((bits(2.5), bits(65.0), bits(-4.25))));
    assert_eq!(server.known_camera(2), Some((bits(9.0), bits(9.0), bits(9.0))));
}

#[test]
fn a_position_stays_known_when_its_client_goes() {
    let mut server = server_with(&[1, 2]);
    server.handle(1, &frame(MessageType::PlayerUpdate, 1.0, 2.0, 3.0, 0));
    server.handle(2, &frame(MessageType::PlayerUpdate, 4.0, 5.0, 6.0, 0));
    assert!(server.disconnect(1));
    for _ in 0..5 {
        server.read_fault(2);
    }
    assert_eq!(server.client_count(), 0);
    assert_eq!(server.known_camera(1), Some((bits(1.0), bits(2.0), bits(3.0))));
    assert_eq!(server.known_camera(2), Some((bits(4.0), bits(5.0), bits(6.0))));
    // A report of somebody who is not connected is not noted.
    server.handle(3, &frame(MessageType::PlayerUpdate, 7.0, 8.0, 9.0, 0));
    assert_eq!(server.known_camera(3), None);
    server.handle(1, &frame(MessageType::PlayerUpdate, 7.0, 8.0, 9.0, 0));
    assert_eq!(server.known_camera(1), Some((bits(1.0), bits(2.0), bits(3.0))));
}

#[test]
fn everyone_is_a_recipient_once() {
    let all: Vec<u128> = (0..200).map(|n| n * 0x1_0000_0001_0000_0001u128 + 7).collect();
    let mut server = server_with(&all);
    let r = server.handle(all[17], &frame(MessageType::TimeUpdate, 0.0, 0.0, 0.0, 0));
    assert_eq!(r.recipients.len(), 200);
    assert_eq!(sorted(r.recipients.clone()), sorted(all.clone()));
    assert_eq!(server.client_count(), 200);
}

#[test]
fn cosmetic_messages_are_passed_on_untouched() {
    let mut server = server_with(&[1, 2, 3]);
    server.handle(1, &frame(MessageType::BlockSet, 1.0, 1.0, 1.0, 1));
    for kind in [
        MessageType::MobUpdate,
        MessageType::TimeUpdate,
        MessageType::ShutUpMobMsgs,
        MessageType::Noop,
    ] {
        let r = server.handle(3, &frame(kind, 5.0, 6.0, 7.0, 8));
        assert_eq!(r.kind, kind);
        assert!(r.rebroadcast);
        assert_eq!(sorted(r.recipients.clone()), vec![1, 2, 3]);
        assert!(!r.save);
        assert_eq!(r.reply, None);
    }
    assert_eq!(server.chunksys().save_current_world().udm.len(), 16);
    assert_eq!(server.chunksys().seed(), 1234);
    assert!(!server.mob_spawn_queued());
}

#[test]
fn bytes_that_are_no_message_count_as_a_no_op() {
    let mut server = server_with(&[1, 2]);
    for junk in [vec![], vec![1, 2, 3], vec![0xff; 28], vec![0; 29], vec![5; 200]] {
        let r = server.handle(2, &junk);
        assert_eq!(r.kind, MessageType::Noop);
        assert!(r.rebroadcast);
        assert_eq!(sorted(r.recipients.clone()), vec![1, 2]);
        assert!(!r.save);
        assert_eq!(r.reply, None);
    }
    // The connection is kept, and the read counts as a good one.
    assert_eq!(server.client(2).unwrap().errorstrikes, 0);
    assert!(server.chunksys().save_current_world().udm.is_empty());
}

#[test]
fn messages_of_strangers_do_nothing() {
    let mut server = server_with(&[1]);
    let r = server.handle(99, &frame(MessageType::BlockSet, 1.0, 2.0, 3.0, 5));
    assert_eq!(r.kind, MessageType::BlockSet);
    assert!(quiet(&r));
    assert_eq!(server.chunksys().override_at(IVec3::new(1, 2, 3)), None);
    let r = server.handle(99, &frame(MessageType::RequestTakeoff, 0.0, 0.0, 0.0, 0));
    assert!(quiet(&r));
    assert_eq!(server.chunksys().seed(), 1234);
    let r = server.handle(99, &frame(MessageType::RequestSeed, 0.0, 0.0, 0.0, 0));
    assert!(quiet(&r));
}

#[test]
fn takeoff_starts_a_new_world_with_the_seed_that_was_drawn() {
    let mut server = server_with(&[1, 2]);
    server.handle(1, &frame(MessageType::BlockSet, 1.0, 2.0, 3.0, 5));
    let m = Message::new(MessageType::RequestTakeoff, 0, 0, 0, 0, 0);
    let r = server.apply(2, &m, Some(777));
    assert_eq!(r.kind, MessageType::RequestTakeoff);
    assert!(r.save && r.rebroadcast);
    assert_eq!(sorted(r.recipients.clone()), vec![1, 2]);
    assert_eq!(server.chunksys().seed(), 777);
    assert_eq!(server.chunksys().planet_type(), 1);
    assert_eq!(server.chunksys().radius(), 1);
    assert_eq!(server.chunksys().override_at(IVec3::new(1, 2, 3)), None);
    assert!(server.mob_spawn_queued());
    server.clear_mob_spawn();
    assert!(!server.mob_spawn_queued());
    // The kind of world goes back and forth.
    server.apply(1, &m, Some(778));
    assert_eq!((server.chunksys().seed(), server.chunksys().planet_type()), (778, 0));
    assert!(server.mob_spawn_queued());
    let files = server.chunksys().save_current_world();
    assert_eq!(files.seed, b"778".to_vec());
    assert_eq!(files.pt, b"0".to_vec());
}

#[test]
fn takeoff_without_a_seed_is_dropped() {
    let mut server = server_with(&[1, 2]);
    server.handle(1, &frame(MessageType::BlockSet, 1.0, 2.0, 3.0, 5));
    server.read_fault(2);
    let m = Message::new(MessageType::RequestTakeoff, 0, 0, 0, 0, 0);
    let r = server.apply(2, &m, None);
    assert_eq!(r.kind, MessageType::RequestTakeoff);
    assert!(quiet(&r));
    assert_eq!(server.chunksys().seed(), 1234);
    assert_eq!(server.chunksys().planet_type(), 0);
    assert_eq!(server.chunksys().override_at(IVec3::new(1, 2, 3)), Some(5));
    assert!(!server.mob_spawn_queued());
    assert_eq!(server.client(2).unwrap().errorstrikes, 0);
}

#[test]
fn takeoff_over_the_wire_draws_a_seed() {
    let mut seeds = Vec::new();
    for _ in 0..8 {
        let mut server = server_with(&[1]);
        let r = server.handle(1, &frame(MessageType::RequestTakeoff, 0.0, 0.0, 0.0, 0));
        assert_eq!(r.kind, MessageType::RequestTakeoff);
        assert!(r.save && r.rebroadcast);
        assert_eq!(server.chunksys().planet_type(), 1);
        assert!(server.mob_spawn_queued());
        seeds.push(server.chunksys().seed());
    }
    // Eight draws of 32 bits that all give the seed of the old world, or
    // all the same number, would be no draws at all.
    assert!(seeds.iter().any(|s| *s != 1234));
    assert!(seeds.iter().any(|s| *s != seeds[0]));
}

#[test]
fn apply_takes_a_seed_only_for_a_takeoff() {
    let mut server = server_with(&[1]);
    let m = Message::new(MessageType::TimeUpdate, 0, 0, 0, 0, 0);
    let r = server.apply(1, &m, Some(5));
    assert!(r.rebroadcast && !r.save);
    assert_eq!(server.chunksys().seed(), 1234);
    assert!(!server.mob_spawn_queued());
}
