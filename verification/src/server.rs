//! The server's side of a connection: who is connected, what each message
//! does to the world that the server holds, and what goes back out.
//!
//! The server's loop reads from a client and hands what it read to
//! [`Server::handle`]; what the loop then has to send or to write is in
//! the [`Response`]. Nothing here touches a socket or a file.

use std::collections::HashMap;
use vstd::prelude::*;
use vstd::std_specs::hash::axiom_spec_keys_iter;
use vstd::std_specs::iter::IteratorSpec;
use crate::chunk::{voxel_key, ChunkSystem, Tier};
use crate::entropy::{fresh_id, fresh_seed};
use crate::floatbits::truncate;
use crate::server_types::{
    blob_message, decoded, identity_message, Message, MessageType, MessageView,
};
use crate::table::{
    cameras_get, cameras_insert, cameras_new, cameras_of, no_cameras, Cameras,
};
use crate::vec::IVec3;
use crate::world::{toggled, voxel_of};

verus! {

/// A client may fail this many reads in a row and stay connected.
pub const MAX_STRIKES: i8 = 4;

/// What the server keeps of a connected client: how many reads in a row
/// have failed.
#[derive(Clone, Copy, PartialEq, Eq, Structural, Debug)]
pub struct Client {
    pub errorstrikes: i8,
}

/// The server's state: the clients by identifier, the position that each
/// identifier last reported, the world, and whether creatures are to be
/// spawned once the new world stands.
pub struct Server {
    pub(crate) clients: HashMap<u128, Client>,
    pub(crate) knowncams: Cameras,
    pub(crate) csys: ChunkSystem,
    pub(crate) mobspawnqueued: bool,
}

/// What the loop has to do after a read.
pub struct Response {
    /// The kind of the message that was read; `Noop` where the bytes were
    /// no message.
    pub kind: MessageType,
    /// The kind of the answer that the sender is owed, if any: the loop
    /// reads the blob of the current world that the kind names and sends
    /// it, wrapped by [`Server::frame_reply`], to the sender alone.
    pub reply: Option<MessageType>,
    /// True when the world changed and has to be written out.
    pub save: bool,
    /// True when the bytes that were read go out again, unchanged, to
    /// every client in `recipients`.
    pub rebroadcast: bool,
    /// Every connected client, the sender included, where the bytes go
    /// out again; else nobody.
    pub recipients: Vec<u128>,
}

/// The message that bytes are taken for: the one they hold, or `Noop`
/// where they hold none.
pub open spec fn read_as(bytes: Seq<u8>) -> MessageView {
    match decoded(bytes) {
        Ok(m) => m,
        Err(_) => MessageView {
            message_type: MessageType::Noop,
            x: 0,
            y: 0,
            z: 0,
            rot: 0,
            info: 0,
            payload: Seq::empty(),
        },
    }
}

/// The answer that a kind of message is owed.
pub open spec fn reply_to(kind: MessageType) -> Option<MessageType> {
    match kind {
        MessageType::RequestUdm => Some(MessageType::Udm),
        MessageType::RequestSeed => Some(MessageType::Seed),
        MessageType::RequestPt => Some(MessageType::Pt),
        _ => None,
    }
}

/// True when `ids` lists the clients: every connected identifier once,
/// and nothing else. The order is not fixed.
pub open spec fn lists(ids: Seq<u128>, sessions: Map<u128, Client>) -> bool {
    ids.to_set() == sessions.dom() && ids.no_duplicates()
}

/// No client has more strikes than it may have.
pub open spec fn orderly(sessions: Map<u128, Client>) -> bool {
    forall|id: u128| #[trigger]
        sessions.contains_key(id) ==> 0 <= sessions[id].errorstrikes <= MAX_STRIKES
}

/// A client that has just been taken in, or just been heard: nothing is
/// held against it.
pub open spec fn in_good_standing() -> Client {
    Client { errorstrikes: 0 }
}

/// The known positions after message `m` of a connected client `from`
/// has been read: a position report is noted under the sender's
/// identifier, in place of what was noted there before.
pub open spec fn noted(
    cameras: Map<u128, (u32, u32, u32)>,
    from: u128,
    m: MessageView,
) -> Map<u128, (u32, u32, u32)> {
    if m.message_type == MessageType::PlayerUpdate {
        cameras.insert(from, (m.x, m.y, m.z))
    } else {
        cameras
    }
}

/// True when the message changes the world: a block mutation always, a
/// request for a new world where a seed was drawn for it.
pub open spec fn changes_world(m: MessageView, fresh: Option<u32>) -> bool {
    m.message_type == MessageType::BlockSet || (m.message_type == MessageType::RequestTakeoff
        && fresh.is_some())
}

/// True when the bytes of the message go out again: a request for a blob
/// is answered instead, and a request for a new world that could not be
/// granted is dropped.
pub open spec fn goes_out(m: MessageView, fresh: Option<u32>) -> bool {
    !m.message_type.is_request() && !(m.message_type == MessageType::RequestTakeoff
        && fresh.is_none())
}

impl Server {
    /// The connected clients, by identifier.
    pub open(crate) spec fn sessions(&self) -> Map<u128, Client> {
        self.clients@
    }

    /// The position that each identifier last reported, as the bit
    /// patterns of three floats. A position stays when its client goes.
    pub open(crate) spec fn cameras(&self) -> Map<u128, (u32, u32, u32)> {
        cameras_of(self.knowncams)
    }

    /// The world that the server holds.
    pub open(crate) spec fn world(&self) -> ChunkSystem {
        self.csys
    }

    /// True when creatures are to be spawned.
    pub open(crate) spec fn spawn_queued(&self) -> bool {
        self.mobspawnqueued
    }

    /// The invariant of the server's state.
    pub open spec fn wf(&self) -> bool {
        self.world().wf() && orderly(self.sessions()) && self.sessions().dom().finite()
    }

    /// What reading message `m` from client `from` makes of state `self`:
    /// state `after` and response `r`. `fresh` is the seed that was drawn
    /// for a new world, if one was drawn.
    pub open spec fn applies(
        &self,
        after: &Server,
        from: u128,
        m: MessageView,
        fresh: Option<u32>,
        r: &Response,
    ) -> bool {
        if !self.sessions().contains_key(from) {
            &&& after.sessions() == self.sessions()
            &&& after.cameras() == self.cameras()
            &&& after.world() == self.world()
            &&& after.spawn_queued() == self.spawn_queued()
            &&& r.kind == m.message_type
            &&& r.reply.is_none()
            &&& !r.save
            &&& !r.rebroadcast
            &&& r.recipients@.len() == 0
        } else {
            &&& after.sessions() == self.sessions().insert(from, in_good_standing())
            &&& after.cameras() == noted(self.cameras(), from, m)
            &&& if m.message_type == MessageType::BlockSet {
                &&& self.world().same_but_blocks(&after.world())
                &&& forall|t: Tier| after.world().pending(t) == self.world().pending(t)
                &&& after.world().overrides() == self.world().overrides().insert(
                    voxel_key(voxel_of(m)),
                    m.info,
                )
            } else if m.message_type == MessageType::RequestTakeoff && fresh.is_some() {
                after.world().is_fresh(
                    self.world().spec_radius(),
                    fresh.unwrap(),
                    toggled(self.world().spec_planet_type()),
                )
            } else {
                after.world() == self.world()
            }
            &&& after.spawn_queued() == (self.spawn_queued() || (m.message_type
                == MessageType::RequestTakeoff && fresh.is_some()))
            &&& r.kind == m.message_type
            &&& r.reply == reply_to(m.message_type)
            &&& r.save == changes_world(m, fresh)
            &&& r.rebroadcast == goes_out(m, fresh)
            &&& if goes_out(m, fresh) {
                lists(r.recipients@, self.sessions())
            } else {
                r.recipients@.len() == 0
            }
        }
    }

    /// A server for the world `csys`, with nobody connected and no
    /// position known.
    pub fn new(csys: ChunkSystem) -> (server: Server)
        requires
            csys.wf(),
        ensures
            server.wf(),
            server.sessions() == Map::<u128, Client>::empty(),
            server.cameras() == no_cameras(),
            server.world() == csys,
            !server.spawn_queued(),
    {
        Server {
            clients: HashMap::new(),
            knowncams: cameras_new(),
            csys,
            mobspawnqueued: false,
        }
    }

    /// The world that the server holds.
    pub fn chunksys(&self) -> (csys: &ChunkSystem)
        ensures
            *csys == self.world(),
    {
        &self.csys
    }

    /// The position that the client with identifier `id` last reported,
    /// if it ever reported one.
    pub fn known_camera(&self, id: u128) -> (position: Option<(u32, u32, u32)>)
        ensures
            position == (if self.cameras().contains_key(id) {
                Some(self.cameras()[id])
            } else {
                None
            }),
    {
        cameras_get(&self.knowncams, id)
    }

    /// True when creatures are to be spawned.
    pub fn mob_spawn_queued(&self) -> (queued: bool)
        ensures
            queued == self.spawn_queued(),
    {
        self.mobspawnqueued
    }

    /// Notes that the creatures have been spawned.
    pub fn clear_mob_spawn(&mut self)
        ensures
            !final(self).spawn_queued(),
            final(self).sessions() == old(self).sessions(),
            final(self).cameras() == old(self).cameras(),
            final(self).world() == old(self).world(),
    {
        self.mobspawnqueued = false;
    }

    /// What the server keeps of the client with identifier `id`, if it is
    /// connected.
    pub fn client(&self, id: u128) -> (client: Option<Client>)
        ensures
            client == (if self.sessions().contains_key(id) {
                Some(self.sessions()[id])
            } else {
                None
            }),
    {
        match self.clients.get(&id) {
            Some(c) => Some(*c),
            None => None,
        }
    }

    /// The number of connected clients.
    pub fn client_count(&self) -> (n: usize)
        ensures
            n == self.sessions().len(),
    {
        self.clients.len()
    }

    /// The identifiers of the connected clients, each once, in no fixed
    /// order.
    pub fn client_ids(&self) -> (ids: Vec<u128>)
        ensures
            lists(ids@, self.sessions()),
    {
        let mut ids: Vec<u128> = Vec::new();
        proof {
            axiom_spec_keys_iter(&self.clients);
        }
        for id in keys: self.clients.keys()
            invariant
                ids@ == keys.seq().take(keys.index() as int).unref(),
                keys.seq() == self.clients.keys().remaining(),
        {
            ids.push(*id);
        }
        assert(ids@ == self.clients.keys().remaining().unref());
        ids
    }

    /// Takes in a client under the identifier `id` and gives the message
    /// that tells it so, on the wire: the one identity message of the
    /// connection, to be sent before anything else. An identifier that is
    /// in use is refused and nothing changes.
    pub fn connect(&mut self, id: u128) -> (greeting: Option<Vec<u8>>)
        requires
            old(self).wf(),
        ensures
            final(self).wf(),
            final(self).world() == old(self).world(),
            final(self).spawn_queued() == old(self).spawn_queued(),
            final(self).cameras() == old(self).cameras(),
            greeting.is_some() == !old(self).sessions().contains_key(id),
            match greeting {
                Some(bytes) => bytes@ == identity_message(id).encoded() && final(self).sessions()
                    == old(self).sessions().insert(id, in_good_standing()),
                None => final(self).sessions() == old(self).sessions(),
            },
    {
        if self.clients.contains_key(&id) {
            return None;
        }
        let greeting = Message::your_id(id).encode();
        self.clients.insert(id, Client { errorstrikes: 0 });
        greeting
    }

    /// Takes in a client under an identifier drawn at random; see
    /// [`Server::connect`]. Nobody is taken in where no identifier could
    /// be drawn or the one drawn is in use.
    pub fn accept(&mut self) -> (taken: Option<(u128, Vec<u8>)>)
        requires
            old(self).wf(),
        ensures
            final(self).wf(),
            final(self).world() == old(self).world(),
            final(self).spawn_queued() == old(self).spawn_queued(),
            final(self).cameras() == old(self).cameras(),
            match taken {
                Some((id, bytes)) => {
                    &&& !old(self).sessions().contains_key(id)
                    &&& bytes@ == identity_message(id).encoded()
                    &&& final(self).sessions() == old(self).sessions().insert(
                        id,
                        in_good_standing(),
                    )
                },
                None => final(self).sessions() == old(self).sessions(),
            },
    {
        match fresh_id() {
            Some(id) => match self.connect(id) {
                Some(bytes) => Some((id, bytes)),
                None => None,
            },
            None => None,
        }
    }

    /// Lets a client go whose stream has ended. Every other client stays
    /// as it is.
    pub fn disconnect(&mut self, id: u128) -> (gone: bool)
        requires
            old(self).wf(),
        ensures
            final(self).wf(),
            final(self).world() == old(self).world(),
            final(self).spawn_queued() == old(self).spawn_queued(),
            final(self).cameras() == old(self).cameras(),
            gone == old(self).sessions().contains_key(id),
            final(self).sessions() == old(self).sessions().remove(id),
    {
        match self.clients.remove(&id) {
            Some(_) => true,
            None => false,
        }
    }

    /// Notes that a read from a client failed. The client stays while it
    /// has failed no more often in a row than it may; the failure after
    /// that lets it go. Other clients are not touched, and a failure of
    /// somebody who is not connected changes nothing.
    pub fn read_fault(&mut self, id: u128) -> (gone: bool)
        requires
            old(self).wf(),
        ensures
            final(self).wf(),
            final(self).world() == old(self).world(),
            final(self).spawn_queued() == old(self).spawn_queued(),
            final(self).cameras() == old(self).cameras(),
            gone == (old(self).sessions().contains_key(id) && old(self).sessions()[id].errorstrikes
                == MAX_STRIKES),
            final(self).sessions() == (if !old(self).sessions().contains_key(id) {
                old(self).sessions()
            } else if gone {
                old(self).sessions().remove(id)
            } else {
                old(self).sessions().insert(
                    id,
                    Client { errorstrikes: (old(self).sessions()[id].errorstrikes + 1) as i8 },
                )
            }),
    {
        let strikes = match self.clients.get(&id) {
            Some(c) => c.errorstrikes,
            None => {
                return false;
            },
        };
        if strikes >= MAX_STRIKES {
            self.clients.remove(&id);
            true
        } else {
            self.clients.insert(id, Client { errorstrikes: strikes + 1 });
            false
        }
    }

    /// What a message read from client `from` does: see
    /// [`Server::applies`]. `fresh` is the seed to use if the message
    /// asks for a new world.
    pub fn apply(&mut self, from: u128, message: &Message, fresh: Option<u32>) -> (r: Response)
        requires
            old(self).wf(),
        ensures
            final(self).wf(),
            old(self).applies(final(self), from, message@, fresh, &r),
    {
        let kind = message.message_type;
        if !self.clients.contains_key(&from) {
            return Response {
                kind,
                reply: None,
                save: false,
                rebroadcast: false,
                recipients: Vec::new(),
            };
        }
        let everyone = self.client_ids();
        self.clients.insert(from, Client { errorstrikes: 0 });
        let mut save = false;
        let mut dropped = false;
        match kind {
            MessageType::PlayerUpdate => {
                cameras_insert(&mut self.knowncams, from, (message.x, message.y, message.z));
            },
            MessageType::BlockSet => {
                let spot = IVec3 {
                    x: truncate(message.x),
                    y: truncate(message.y),
                    z: truncate(message.z),
                };
                self.csys.set_block(spot, message.info);
                save = true;
            },
            MessageType::RequestTakeoff => {
                match fresh {
                    Some(seed) => {
                        self.csys.next_world(seed);
                        self.mobspawnqueued = true;
                        save = true;
                    },
                    None => {
                        dropped = true;
                    },
                }
            },
            _ => {},
        }
        let reply = match kind {
            MessageType::RequestUdm => Some(MessageType::Udm),
            MessageType::RequestSeed => Some(MessageType::Seed),
            MessageType::RequestPt => Some(MessageType::Pt),
            _ => None,
        };
        let rebroadcast = reply.is_none() && !dropped;
        let recipients = if rebroadcast {
            everyone
        } else {
            Vec::new()
        };
        Response { kind, reply, save, rebroadcast, recipients }
    }

    /// What the bytes read from client `from` do. Bytes that are no
    /// message count as a `Noop` message. A seed is drawn where the
    /// message asks for a new world; whatever was drawn, the state after
    /// and the response are what [`Server::applies`] says for it.
    pub fn handle(&mut self, from: u128, bytes: &Vec<u8>) -> (r: Response)
        requires
            old(self).wf(),
        ensures
            final(self).wf(),
            exists|fresh: Option<u32>| #[trigger]
                old(self).applies(final(self), from, read_as(bytes@), fresh, &r),
            read_as(bytes@).message_type != MessageType::RequestTakeoff ==> old(self).applies(
                final(self),
                from,
                read_as(bytes@),
                None,
                &r,
            ),
    {
        let message = match Message::decode(bytes) {
            Ok(m) => m,
            Err(_) => Message::new(MessageType::Noop, 0, 0, 0, 0, 0),
        };
        let fresh = match message.message_type {
            MessageType::RequestTakeoff => fresh_seed(),
            _ => None,
        };
        self.apply(from, &message, fresh)
    }

    /// The answer to a request, on the wire: the message of kind `kind`
    /// that carries `blob`. There is none where the kind carries no body
    /// or the blob is too long.
    pub fn frame_reply(kind: MessageType, blob: &Vec<u8>) -> (bytes: Option<Vec<u8>>)
        ensures
            bytes.is_some() == (kind.carries_body() && blob@.len() + 8 <= u32::MAX),
            bytes matches Some(b) ==> b@ == blob_message(kind, blob@).encoded(),
    {
        match Message::with_blob(kind, blob) {
            Some(m) => m.encode(),
            None => None,
        }
    }
}

} // verus!
