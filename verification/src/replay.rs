//! Streaming a finished recording: the container is opened again and its
//! samples are sent chunk by chunk, as if they were being recorded.

use crate::audio::CHUNK_SAMPLES;
use crate::commands::{CommandModel, SessionCommand};
use crate::error::{ErrorModel, PipelineError};
use crate::pcm::{chunk_at, chunk_count, pcm_bytes, split_chunks};
use crate::session::RealtimeSession;
use crate::wav::{extract_pcm_from_wav, present, wav_read};
use vstd::prelude::*;
use vstd::string::*;

verus! {

/// The explanation given for audio that is no container.
pub open spec fn not_a_container() -> Seq<char> {
    "音频数据不是有效的 WAV"@
}

/// The commands that stream `samples`: one for each chunk, in order, then
/// the commit.
pub open spec fn replay_commands(samples: Seq<i16>) -> Seq<CommandModel> {
    Seq::new(
        chunk_count(samples.len(), CHUNK_SAMPLES as nat) + 1,
        |i: int|
            if i < chunk_count(samples.len(), CHUNK_SAMPLES as nat) {
                CommandModel::SendAudio(pcm_bytes(chunk_at(samples, CHUNK_SAMPLES as nat, i as nat)))
            } else {
                CommandModel::Commit
            },
    )
}

/// The views of a run of commands.
pub open spec fn commands_view(commands: Seq<SessionCommand>) -> Seq<CommandModel> {
    Seq::new(commands.len(), |i: int| commands[i]@)
}

/// Turns canonical samples into the commands that stream them through an
/// open session and commit them.
pub fn stream_samples(session: &mut RealtimeSession, samples: &[i16]) -> (commands: Result<
    Vec<SessionCommand>,
    PipelineError,
>)
    ensures
        commands is Ok <==> old(session)@.is_open(),
        commands matches Ok(queue) ==> commands_view(queue@) == replay_commands(samples@),
        commands matches Err(e) ==> e@ == ErrorModel::ChannelClosed,
        final(session)@ == old(session)@.after_commit(),
{
    let chunks = split_chunks(samples, CHUNK_SAMPLES);
    let mut queue: Vec<SessionCommand> = Vec::new();
    let n = chunks.len();
    let mut i: usize = 0;
    while i < n
        invariant
            i <= n,
            n == chunks@.len(),
            n == chunk_count(samples@.len(), CHUNK_SAMPLES as nat),
            *session == *old(session),
            forall|k: int|
                0 <= k < n ==> (#[trigger] chunks@[k])@ == chunk_at(
                    samples@,
                    CHUNK_SAMPLES as nat,
                    k as nat,
                ),
            queue@.len() == i,
            forall|k: int|
                0 <= k < i ==> (#[trigger] queue@[k])@ == CommandModel::SendAudio(
                    pcm_bytes(chunk_at(samples@, CHUNK_SAMPLES as nat, k as nat)),
                ),
            i > 0 ==> session@.is_open(),
        decreases n - i,
    {
        match session.send_audio_chunk(chunks[i].as_slice()) {
            Ok(command) => {
                queue.push(command);
            },
            Err(error) => {
                return Err(error);
            },
        }
        i += 1;
    }
    match session.commit_audio() {
        Ok(command) => {
            queue.push(command);
            proof {
                assert(commands_view(queue@) =~= replay_commands(samples@));
            }
            Ok(queue)
        },
        Err(error) => Err(error),
    }
}

/// Streams a finished recording through an open session: takes the
/// samples out of the container and queues them chunk by chunk, then the
/// commit. Audio that is no container is refused before anything is
/// queued.
pub fn realtime_transcribe_audio(session: &mut RealtimeSession, wav_data: &[u8]) -> (commands:
    Result<Vec<SessionCommand>, PipelineError>)
    ensures
        match wav_read(wav_data@) {
            None => commands matches Err(e) && e@ == ErrorModel::Protocol(not_a_container())
                && final(session)@ == old(session)@,
            Some(items) => {
                &&& commands is Ok <==> old(session)@.is_open()
                &&& commands matches Ok(queue) ==> commands_view(queue@) == replay_commands(
                    present(items),
                )
                &&& commands matches Err(e) ==> e@ == ErrorModel::ChannelClosed
                &&& final(session)@ == old(session)@.after_commit()
            },
        },
{
    match extract_pcm_from_wav(wav_data) {
        Ok(samples) => stream_samples(session, samples.as_slice()),
        Err(_) => Err(PipelineError::Protocol(String::from_str("音频数据不是有效的 WAV"))),
    }
}

} // verus!
