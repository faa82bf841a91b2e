//! The playback controller: resolves a scanned tag identifier through the
//! mapping table and supersedes whatever the single output channel is
//! playing, and holds the channel gain within its bounds.
//!
//! The controller is a model of the real output channel: it records which
//! filename is queued and the gain percentage. The surrounding binary mirrors
//! every accepted transition onto the audio device, under one lock shared
//! with the button-polling thread.

use vstd::prelude::*;
use crate::ident::{chars_eq, trim, trim_spec};

verus! {

/// Why a playback request failed. Each failure is local to one scan: the
/// dispatch loop reports it and keeps running.
#[derive(Debug, Clone, Copy, PartialEq, Eq, Structural)]
pub enum PlayError {
    /// The scanned identifier has no entry in the mapping table.
    NotMapped,
    /// The mapped sound file is absent from the sound root.
    MissingFile,
    /// The mapped sound file exists but could not be decoded.
    DecodeError,
}

/// What the surrounding binary found out about the mapped sound file when it
/// probed the sound root: the controller decides from this verdict alone.
#[derive(Debug, Clone, Copy, PartialEq, Eq, Structural)]
pub enum MediaStatus {
    /// The file is absent from the sound root.
    Missing,
    /// The file exists but the decoder rejected it.
    Undecodable,
    /// The file exists and decoded; a source is ready for the channel.
    Ready,
}

/// The mathematical state of the playback controller.
#[verifier::ext_equal]
pub struct PlayerModel {
    /// Identifier-to-filename pairs; a lookup takes the first match.
    pub mapping: Seq<(Seq<char>, Seq<char>)>,
    /// The channel gain as a percentage.
    pub volume: int,
    /// The filenames queued on the output channel, oldest first.
    pub queue: Seq<Seq<char>>,
}

impl PlayerModel {
    /// A well-formed controller: the gain is a percentage and the channel
    /// never holds more than one sound.
    pub open spec fn wf(self) -> bool {
        &&& 0 <= self.volume <= 100
        &&& self.queue.len() <= 1
    }
}

/// The filename the first pair with the given key maps to, if any.
pub open spec fn lookup_spec(m: Seq<(Seq<char>, Seq<char>)>, key: Seq<char>) -> Option<Seq<char>>
    decreases m.len(),
{
    if m.len() == 0 {
        None
    } else if m[0].0 == key {
        Some(m[0].1)
    } else {
        lookup_spec(m.drop_first(), key)
    }
}

/// The abstract mapping table a configured table stands for.
pub open spec fn mapping_view(m: Seq<(Vec<char>, String)>) -> Seq<(Seq<char>, Seq<char>)> {
    m.map(|i: int, p: (Vec<char>, String)| (p.0@, p.1@))
}

/// The play transition: the state after a scan of `id` whose mapped file the
/// probe judged as `media`, and the outcome reported for the scan.
///
/// An unmapped identifier, and a mapped one whose file is missing, leave the
/// channel untouched. A file that exists but does not decode leaves the
/// channel stopped, because the channel is halted before decoding begins. A
/// playable file supersedes everything queued: it becomes the only sound on
/// the channel.
pub open spec fn spec_play(m: PlayerModel, id: Seq<char>, media: MediaStatus) -> (PlayerModel,
    Result<(), PlayError>) {
    match lookup_spec(m.mapping, trim_spec(id)) {
        None => (m, Err(PlayError::NotMapped)),
        Some(f) => match media {
            MediaStatus::Missing => (m, Err(PlayError::MissingFile)),
            MediaStatus::Undecodable => (
                PlayerModel { queue: Seq::empty(), ..m },
                Err(PlayError::DecodeError),
            ),
            MediaStatus::Ready => (PlayerModel { queue: seq![f], ..m }, Ok(())),
        },
    }
}

/// One raise step of the channel gain, saturating at 100.
pub open spec fn raise_spec(v: int) -> int {
    if v + VOLUME_STEP > 100 {
        100
    } else {
        v + VOLUME_STEP
    }
}

/// One lower step of the channel gain, saturating at 0.
pub open spec fn lower_spec(v: int) -> int {
    if v - VOLUME_STEP < 0 {
        0
    } else {
        v - VOLUME_STEP
    }
}

/// The gain after an absolute set, clamped to 100.
pub open spec fn clamp_spec(v: int) -> int {
    if v > 100 {
        100
    } else {
        v
    }
}

/// How much one button press moves the channel gain, in percent.
pub const VOLUME_STEP: u8 = 10;

/// The playback controller. It owns the mapping table and the model of the
/// single output channel: the queued filename and the gain percentage.
pub struct Player {
    /// The configured identifier-to-filename pairs.
    pub mapping: Vec<(Vec<char>, String)>,
    /// The channel gain percentage, kept within 0 to 100.
    pub volume: u8,
    /// The filenames queued on the output channel, oldest first.
    pub queue: Vec<String>,
}

impl View for Player {
    type V = PlayerModel;

    open spec fn view(&self) -> PlayerModel {
        PlayerModel {
            mapping: mapping_view(self.mapping@),
            volume: self.volume as int,
            queue: self.queue@.map(|i: int, s: String| s@),
        }
    }
}

impl Player {
    /// A controller over the given mapping table. The channel starts silent
    /// at full gain, which is how the audio device opens.
    pub fn new(mapping: Vec<(Vec<char>, String)>) -> (r: Player)
        ensures
            r@ == (PlayerModel {
                mapping: mapping_view(mapping@),
                volume: 100,
                queue: Seq::empty(),
            }),
            r@.wf(),
    {
        let r = Player { mapping, volume: 100, queue: Vec::new() };
        proof {
            assert(r@ =~= (PlayerModel {
                mapping: mapping_view(r.mapping@),
                volume: 100,
                queue: Seq::empty(),
            }));
        }
        r
    }

    /// Looks the identifier up in the mapping table, trimmed of surrounding
    /// whitespace: the filename it maps to, or `NotMapped` when the table has
    /// no entry for it.
    pub fn resolve(&self, id: &Vec<char>) -> (r: Result<String, PlayError>)
        ensures
            match r {
                Ok(f) => lookup_spec(self@.mapping, trim_spec(id@)) == Some(f@),
                Err(e) => {
                    &&& e == PlayError::NotMapped
                    &&& lookup_spec(self@.mapping, trim_spec(id@)) is None
                },
            },
    {
        let key = trim(id);
        proof {
            assert(self@.mapping.skip(0) =~= self@.mapping);
        }
        let mut i: usize = 0;
        while i < self.mapping.len()
            invariant
                0 <= i <= self.mapping.len(),
                key@ == trim_spec(id@),
                self@.mapping.len() == self.mapping@.len(),
                lookup_spec(self@.mapping, key@) == lookup_spec(
                    self@.mapping.skip(i as int),
                    key@,
                ),
            decreases self.mapping.len() - i,
        {
            let pair = &self.mapping[i];
            proof {
                assert(self@.mapping[i as int] == (pair.0@, pair.1@));
                assert(self@.mapping.skip(i as int)[0] == self@.mapping[i as int]);
            }
            if chars_eq(&pair.0, &key) {
                return Ok(pair.1.clone());
            }
            proof {
                assert(self@.mapping.skip(i as int).drop_first() =~= self@.mapping.skip(
                    i as int + 1,
                ));
            }
            i = i + 1;
        }
        proof {
            assert(self@.mapping.skip(self.mapping@.len() as int) =~= Seq::<(
                Seq<char>,
                Seq<char>,
            )>::empty());
        }
        Err(PlayError::NotMapped)
    }

    /// Handles one completed tag scan: resolves the identifier and, when the
    /// probe reports a playable file, supersedes whatever the channel was
    /// playing with that file alone. The channel is halted before a new
    /// source is decoded, so a decode failure leaves it stopped.
    pub fn play_by_id(&mut self, id: &Vec<char>, media: MediaStatus) -> (r: Result<
        (),
        PlayError,
    >)
        ensures
            final(self)@ == spec_play(old(self)@, id@, media).0,
            r == spec_play(old(self)@, id@, media).1,
    {
        let resolved = self.resolve(id);
        match resolved {
            Err(_) => Err(PlayError::NotMapped),
            Ok(f) => match media {
                MediaStatus::Missing => Err(PlayError::MissingFile),
                MediaStatus::Undecodable => {
                    self.queue.clear();
                    proof {
                        assert(self@ =~= spec_play(old(self)@, id@, media).0);
                    }
                    Err(PlayError::DecodeError)
                },
                MediaStatus::Ready => {
                    self.queue.clear();
                    self.queue.push(f);
                    proof {
                        assert(self@.queue =~= spec_play(old(self)@, id@, media).0.queue);
                        assert(self@ =~= spec_play(old(self)@, id@, media).0);
                    }
                    Ok(())
                },
            },
        }
    }

    /// Halts the output channel: nothing remains queued. The mapping table
    /// and the gain are untouched.
    pub fn stop(&mut self)
        ensures
            final(self)@ == (PlayerModel { queue: Seq::empty(), ..old(self)@ }),
    {
        self.queue.clear();
        proof {
            assert(self@ =~= (PlayerModel { queue: Seq::empty(), ..old(self)@ }));
        }
    }

    /// Sets the channel gain to the given percentage, clamped to 100.
    pub fn set_volume(&mut self, volume: u8)
        ensures
            final(self)@ == (PlayerModel { volume: clamp_spec(volume as int), ..old(self)@ }),
    {
        self.volume = if volume > 100 {
            100
        } else {
            volume
        };
        proof {
            assert(self@ =~= (PlayerModel { volume: clamp_spec(volume as int), ..old(self)@ }));
        }
    }

    /// Raises the channel gain one step, saturating at 100.
    pub fn raise_volume(&mut self)
        ensures
            final(self)@ == (PlayerModel {
                volume: raise_spec(old(self)@.volume),
                ..old(self)@
            }),
    {
        self.volume = if self.volume > 100 - VOLUME_STEP {
            100
        } else {
            self.volume + VOLUME_STEP
        };
        proof {
            assert(self@ =~= (PlayerModel {
                volume: raise_spec(old(self)@.volume),
                ..old(self)@
            }));
        }
    }

    /// Lowers the channel gain one step, saturating at 0.
    pub fn lower_volume(&mut self)
        ensures
            final(self)@ == (PlayerModel {
                volume: lower_spec(old(self)@.volume),
                ..old(self)@
            }),
    {
        self.volume = if self.volume < VOLUME_STEP {
            0
        } else {
            self.volume - VOLUME_STEP
        };
        proof {
            assert(self@ =~= (PlayerModel {
                volume: lower_spec(old(self)@.volume),
                ..old(self)@
            }));
        }
    }

    /// The channel gain percentage.
    pub fn volume(&self) -> (r: u8)
        ensures
            r as int == self@.volume,
    {
        self.volume
    }

    /// The filename queued on the output channel, if one is.
    pub fn queued(&self) -> (r: Option<&String>)
        ensures
            match r {
                Some(f) => self@.queue.len() >= 1 && f@ == self@.queue[0],
                None => self@.queue.len() == 0,
            },
    {
        if self.queue.len() == 0 {
            None
        } else {
            Some(&self.queue[0])
        }
    }
}

/// Law: the play transition preserves well-formedness; in particular the
/// channel never ends up holding more than one sound.
pub proof fn lemma_play_preserves_wf(m: PlayerModel, id: Seq<char>, media: MediaStatus)
    requires
        m.wf(),
    ensures
        spec_play(m, id, media).0.wf(),
{
}

/// Law: a sound never overlaps the one it supersedes. After `play` of one
/// identifier and then another, the channel holds at most one sound, and when
/// the second play succeeded it holds exactly the second file.
pub proof fn lemma_play_supersedes(
    m: PlayerModel,
    a: Seq<char>,
    ma: MediaStatus,
    b: Seq<char>,
    mb: MediaStatus,
)
    requires
        m.wf(),
    ensures
        ({
            let (m1, r1) = spec_play(m, a, ma);
            let (m2, r2) = spec_play(m1, b, mb);
            &&& m1.wf()
            &&& m2.wf()
            &&& m2.queue.len() <= 1
            &&& (r2 is Ok ==> m2.queue == seq![lookup_spec(m.mapping, trim_spec(b))->0])
        }),
{
    lemma_play_preserves_wf(m, a, ma);
    lemma_play_preserves_wf(spec_play(m, a, ma).0, b, mb);
}

/// The gain after `n` raise steps.
pub open spec fn raise_n(v: int, n: nat) -> int
    decreases n,
{
    if n == 0 {
        v
    } else {
        raise_spec(raise_n(v, (n - 1) as nat))
    }
}

/// The gain after `n` lower steps.
pub open spec fn lower_n(v: int, n: nat) -> int
    decreases n,
{
    if n == 0 {
        v
    } else {
        lower_spec(lower_n(v, (n - 1) as nat))
    }
}

/// Law: however often the gain is raised, it never passes 100.
pub proof fn lemma_raise_clamped(v: int, n: nat)
    requires
        0 <= v <= 100,
    ensures
        0 <= raise_n(v, n) <= 100,
    decreases n,
{
    if n > 0 {
        lemma_raise_clamped(v, (n - 1) as nat);
    }
}

/// Law: however often the gain is lowered, it never drops below 0.
pub proof fn lemma_lower_clamped(v: int, n: nat)
    requires
        0 <= v <= 100,
    ensures
        0 <= lower_n(v, n) <= 100,
    decreases n,
{
    if n > 0 {
        lemma_lower_clamped(v, (n - 1) as nat);
    }
}

} // verus!
