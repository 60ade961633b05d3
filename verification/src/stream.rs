//! The reconstruction of a streamed reply: an ordered sequence of chunks is
//! reduced to one logical completion, or to the first thing wrong with it.

use vstd::prelude::*;
use vstd::string::StringExecFns;
use crate::model::{chunk_object, ChunkView, CompletionChunk, FinishReason};

verus! {

/// What can be wrong with a chunk.
#[derive(Clone, Copy, Debug, PartialEq, Eq, Structural)]
pub enum ChunkDefect {
    /// Its `id` is empty.
    EmptyId,
    /// Its `object` is not the tag of a chunk.
    WrongObject,
    /// Its `created` is zero.
    ZeroCreated,
    /// Its `model` is not the one that was asked for.
    WrongModel,
    /// It has no choice.
    NoChoices,
    /// Its first choice does not have index 0.
    WrongChoiceIndex,
    /// Its `id` differs from that of the first chunk.
    IdChanged,
    /// It follows a chunk that carried a finish reason.
    AfterFinish,
}

impl ChunkDefect {
    /// The defect in words.
    pub open spec fn text(self) -> Seq<char> {
        match self {
            ChunkDefect::EmptyId => "its id is empty"@,
            ChunkDefect::WrongObject => "its object is not chat.completion.chunk"@,
            ChunkDefect::ZeroCreated => "its created is zero"@,
            ChunkDefect::WrongModel => "its model is not the one asked for"@,
            ChunkDefect::NoChoices => "it has no choices"@,
            ChunkDefect::WrongChoiceIndex => "its first choice has not index 0"@,
            ChunkDefect::IdChanged => "its id differs from that of the first chunk"@,
            ChunkDefect::AfterFinish => "it follows the chunk with the finish reason"@,
        }
    }

    /// The defect in words.
    pub fn describe(self) -> (r: &'static str)
        ensures
            r@ == self.text(),
    {
        match self {
            ChunkDefect::EmptyId => "its id is empty",
            ChunkDefect::WrongObject => "its object is not chat.completion.chunk",
            ChunkDefect::ZeroCreated => "its created is zero",
            ChunkDefect::WrongModel => "its model is not the one asked for",
            ChunkDefect::NoChoices => "it has no choices",
            ChunkDefect::WrongChoiceIndex => "its first choice has not index 0",
            ChunkDefect::IdChanged => "its id differs from that of the first chunk",
            ChunkDefect::AfterFinish => "it follows the chunk with the finish reason",
        }
    }
}

/// What is wrong with a chunk taken by itself, the first of the defects in
/// the order of the fields.
pub open spec fn chunk_defect(model: Seq<char>, chunk: ChunkView) -> Option<ChunkDefect> {
    if chunk.id.len() == 0 {
        Some(ChunkDefect::EmptyId)
    } else if chunk.object != chunk_object() {
        Some(ChunkDefect::WrongObject)
    } else if chunk.created == 0 {
        Some(ChunkDefect::ZeroCreated)
    } else if chunk.model != model {
        Some(ChunkDefect::WrongModel)
    } else if chunk.choices.len() == 0 {
        Some(ChunkDefect::NoChoices)
    } else if chunk.choices[0].index != 0 {
        Some(ChunkDefect::WrongChoiceIndex)
    } else {
        None
    }
}

/// What is wrong with the chunk at position `i` of a stream: a defect of its
/// own, or else an `id` that is not the first chunk's, or else its standing
/// behind a chunk that carried a finish reason.
pub open spec fn defect_at(model: Seq<char>, chunks: Seq<ChunkView>, i: int) -> Option<
    ChunkDefect,
> {
    match chunk_defect(model, chunks[i]) {
        Some(d) => Some(d),
        None => if i > 0 && chunks[i].id != chunks[0].id {
            Some(ChunkDefect::IdChanged)
        } else if i > 0 && chunks[i - 1].finish() is Some {
            Some(ChunkDefect::AfterFinish)
        } else {
            None
        },
    }
}

/// None of the first `n` chunks has a defect.
pub open spec fn sound_before(model: Seq<char>, chunks: Seq<ChunkView>, n: int) -> bool {
    forall|i: int| 0 <= i < n ==> defect_at(model, chunks, i) is None
}

/// The reply that a stream spells: the texts of its chunks, in the order of
/// arrival.
pub open spec fn stream_text(chunks: Seq<ChunkView>) -> Seq<char>
    decreases chunks.len(),
{
    if chunks.len() == 0 {
        Seq::empty()
    } else {
        stream_text(chunks.drop_last()) + chunks.last().text()
    }
}

/// The finish reason on the last chunk of a stream, if it has one.
pub open spec fn terminal_reason(chunks: Seq<ChunkView>) -> Option<FinishReason> {
    if chunks.len() > 0 {
        chunks.last().finish()
    } else {
        None
    }
}

/// Why a stream gives no completion.
#[derive(Clone, Copy, Debug, PartialEq, Eq, Structural)]
pub enum StreamError {
    /// The chunk at `position` is the first with a defect.
    Malformed { position: usize, defect: ChunkDefect },
    /// The stream ended without a finish reason.
    Unfinished,
}

/// The completion that a stream amounts to.
#[derive(Clone, Debug, PartialEq, Eq)]
pub struct Reconstruction {
    /// The reply.
    pub content: String,
    /// The finish reason, which the last chunk carried.
    pub terminal_reason: FinishReason,
    /// How many chunks the stream had.
    pub chunks: usize,
}

/// What a whole stream amounts to, as a relation between the chunks and the
/// result: a completion where every chunk is sound and the last one carries
/// a finish reason; else the first defect; else, the stream being sound, the
/// want of a finish reason.
pub open spec fn reconstructs_to(
    model: Seq<char>,
    chunks: Seq<ChunkView>,
    result: Result<Reconstruction, StreamError>,
) -> bool {
    match result {
        Ok(done) => {
            &&& sound_before(model, chunks, chunks.len() as int)
            &&& terminal_reason(chunks) == Some(done.terminal_reason)
            &&& done.content@ == stream_text(chunks)
            &&& done.chunks == chunks.len()
        },
        Err(StreamError::Malformed { position, defect }) => {
            &&& position < chunks.len()
            &&& sound_before(model, chunks, position as int)
            &&& defect_at(model, chunks, position as int) == Some(defect)
        },
        Err(StreamError::Unfinished) => {
            &&& sound_before(model, chunks, chunks.len() as int)
            &&& terminal_reason(chunks) is None
        },
    }
}

/// The accumulator of a stream: it takes the chunks one at a time, in the
/// order of arrival, and gives the result when the stream has ended.
pub struct Reconstructor {
    model: String,
    first_id: Option<String>,
    content: String,
    last_finish: Option<FinishReason>,
    count: usize,
    defect: Option<(usize, ChunkDefect)>,
    history: Ghost<Seq<ChunkView>>,
}

impl Reconstructor {
    /// The chunks taken so far.
    pub closed spec fn seen(&self) -> Seq<ChunkView> {
        self.history@
    }

    /// The model that every chunk must name.
    pub closed spec fn model(&self) -> Seq<char> {
        self.model@
    }

    /// The fields agree with the chunks taken so far.
    pub closed spec fn wf(&self) -> bool {
        let chunks = self.history@;
        &&& self.count == chunks.len()
        &&& match self.defect {
            Some((position, defect)) => {
                &&& position < chunks.len()
                &&& sound_before(self.model@, chunks, position as int)
                &&& defect_at(self.model@, chunks, position as int) == Some(defect)
            },
            None => {
                &&& sound_before(self.model@, chunks, chunks.len() as int)
                &&& self.content@ == stream_text(chunks)
                &&& self.last_finish == terminal_reason(chunks)
                &&& match self.first_id {
                    Some(id) => chunks.len() > 0 && id@ == chunks[0].id,
                    None => chunks.len() == 0,
                }
            },
        }
    }

    /// What is wrong with a chunk taken by itself.
    fn inspect(model: &String, chunk: &CompletionChunk) -> (r: Option<ChunkDefect>)
        ensures
            r == chunk_defect(model@, chunk@),
    {
        let tag = String::from_str("chat.completion.chunk");
        if chunk.id.as_str().is_empty() {
            Some(ChunkDefect::EmptyId)
        } else if chunk.object != tag {
            Some(ChunkDefect::WrongObject)
        } else if chunk.created == 0 {
            Some(ChunkDefect::ZeroCreated)
        } else if chunk.model != *model {
            Some(ChunkDefect::WrongModel)
        } else if chunk.choices.len() == 0 {
            Some(ChunkDefect::NoChoices)
        } else if chunk.choices[0].index != 0 {
            Some(ChunkDefect::WrongChoiceIndex)
        } else {
            None
        }
    }

    /// An accumulator that has taken nothing yet.
    pub fn new(model: &str) -> (r: Reconstructor)
        ensures
            r.wf(),
            r.model() == model@,
            r.seen() == Seq::<ChunkView>::empty(),
    {
        Reconstructor {
            model: model.to_owned(),
            first_id: None,
            content: String::new(),
            last_finish: None,
            count: 0,
            defect: None,
            history: Ghost(Seq::empty()),
        }
    }

    /// How many chunks have been taken.
    pub fn len(&self) -> (n: usize)
        requires
            self.wf(),
        ensures
            n == self.seen().len(),
    {
        self.count
    }

    /// Takes the next chunk of the stream.
    pub fn push(&mut self, chunk: &CompletionChunk)
        requires
            old(self).wf(),
            old(self).seen().len() < usize::MAX,
        ensures
            final(self).wf(),
            final(self).model() == old(self).model(),
            final(self).seen() == old(self).seen().push(chunk@),
    {
        let ghost before = self.history@;
        let ghost after = before.push(chunk@);
        let position = self.count;
        proof {
            assert(after.drop_last() =~= before);
            assert forall|i: int| 0 <= i < before.len() implies defect_at(self.model@, after, i)
                == defect_at(self.model@, before, i) by {
                assert(after[i] == before[i]);
            }
        }
        if self.defect.is_none() {
            let mut found = Self::inspect(&self.model, chunk);
            if found.is_none() {
                match &self.first_id {
                    Some(id) => {
                        if chunk.id != *id {
                            found = Some(ChunkDefect::IdChanged);
                        } else if self.last_finish.is_some() {
                            found = Some(ChunkDefect::AfterFinish);
                        }
                    },
                    None => {},
                }
            }
            assert(found == defect_at(self.model@, after, position as int));
            match found {
                Some(defect) => {
                    self.defect = Some((position, defect));
                },
                None => {
                    if self.first_id.is_none() {
                        self.first_id = Some(chunk.id.clone());
                    }
                    let first = &chunk.choices[0];
                    match &first.delta.content {
                        Some(text) => {
                            self.content.append(text.as_str());
                        },
                        None => {
                            assert(self.content@ + Seq::<char>::empty() =~= self.content@);
                        },
                    }
                    self.last_finish = first.finish_reason;
                },
            }
        }
        self.count = position + 1;
        self.history = Ghost(after);
    }

    /// The result of the stream, once it has ended.
    pub fn finish(self) -> (r: Result<Reconstruction, StreamError>)
        requires
            self.wf(),
        ensures
            reconstructs_to(self.model(), self.seen(), r),
    {
        match self.defect {
            Some((position, defect)) => Err(StreamError::Malformed { position, defect }),
            None => match self.last_finish {
                Some(reason) => Ok(
                    Reconstruction {
                        content: self.content,
                        terminal_reason: reason,
                        chunks: self.count,
                    },
                ),
                None => Err(StreamError::Unfinished),
            },
        }
    }
}

/// The views of a stream's chunks, in order.
pub open spec fn chunk_views(chunks: Seq<CompletionChunk>) -> Seq<ChunkView> {
    chunks.map_values(|c: CompletionChunk| c@)
}

/// Reduces a whole stream, taken in the order of arrival, to its result.
pub fn reconstruct(model: &str, chunks: &Vec<CompletionChunk>) -> (r: Result<
    Reconstruction,
    StreamError,
>)
    ensures
        reconstructs_to(model@, chunk_views(chunks@), r),
{
    let mut state = Reconstructor::new(model);
    let mut i: usize = 0;
    while i < chunks.len()
        invariant
            i <= chunks.len(),
            state.wf(),
            state.model() == model@,
            state.seen() == chunk_views(chunks@.subrange(0, i as int)),
        decreases chunks.len() - i,
    {
        state.push(&chunks[i]);
        proof {
            assert(chunk_views(chunks@.subrange(0, i as int)).push(chunks@[i as int]@)
                =~= chunk_views(chunks@.subrange(0, i + 1)));
        }
        i += 1;
    }
    proof {
        assert(chunks@.subrange(0, i as int) =~= chunks@);
    }
    state.finish()
}

/// The reply of two streams taken one after the other is the reply of the
/// first followed by the reply of the second: nothing is reordered, dropped
/// or taken twice.
pub proof fn lemma_text_of_concatenation(a: Seq<ChunkView>, b: Seq<ChunkView>)
    ensures
        stream_text(a + b) == stream_text(a) + stream_text(b),
    decreases b.len(),
{
    if b.len() == 0 {
        assert(a + b =~= a);
        assert(stream_text(a) + stream_text(b) =~= stream_text(a));
    } else {
        lemma_text_of_concatenation(a, b.drop_last());
        assert((a + b).drop_last() =~= a + b.drop_last());
        assert((a + b).last() == b.last());
        assert(stream_text(a + b) =~= stream_text(a) + stream_text(b));
    }
}

/// A chunk whose first choice has no content adds nothing to the reply.
pub proof fn lemma_chunk_without_content(chunks: Seq<ChunkView>, chunk: ChunkView)
    requires
        chunk.choices.len() > 0,
        chunk.choices[0].content is None,
    ensures
        stream_text(chunks.push(chunk)) == stream_text(chunks),
{
    assert(chunks.push(chunk).drop_last() =~= chunks);
    assert(stream_text(chunks) + Seq::<char>::empty() =~= stream_text(chunks));
}

/// In a stream without a defect no chunk but the last carries a finish
/// reason: where the last one does, exactly one chunk does.
pub proof fn lemma_only_the_last_finishes(model: Seq<char>, chunks: Seq<ChunkView>, i: int)
    requires
        sound_before(model, chunks, chunks.len() as int),
        0 <= i < chunks.len() - 1,
    ensures
        chunks[i].finish() is None,
{
    assert(defect_at(model, chunks, i + 1) is None);
}

/// In a stream without a defect every chunk has the `id` of the first, the
/// tag of a chunk and the model that was asked for.
pub proof fn lemma_envelope_is_constant(model: Seq<char>, chunks: Seq<ChunkView>, i: int)
    requires
        sound_before(model, chunks, chunks.len() as int),
        0 <= i < chunks.len(),
    ensures
        chunks[i].id == chunks[0].id,
        chunks[i].id.len() > 0,
        chunks[i].object == chunk_object(),
        chunks[i].model == model,
        chunks[i].created > 0,
        chunks[i].choices.len() > 0,
        chunks[i].choices[0].index == 0,
{
    assert(defect_at(model, chunks, i) is None);
}

/// A stream has one result: two results of the same chunks are of the same
/// kind and agree in everything.
pub proof fn lemma_result_is_unique(
    model: Seq<char>,
    chunks: Seq<ChunkView>,
    a: Result<Reconstruction, StreamError>,
    b: Result<Reconstruction, StreamError>,
)
    requires
        reconstructs_to(model, chunks, a),
        reconstructs_to(model, chunks, b),
    ensures
        a is Ok <==> b is Ok,
        a is Ok ==> a->Ok_0.content@ == b->Ok_0.content@ && a->Ok_0.terminal_reason
            == b->Ok_0.terminal_reason && a->Ok_0.chunks == b->Ok_0.chunks,
        a is Err ==> a->Err_0 == b->Err_0,
{
    match (a, b) {
        (
            Err(StreamError::Malformed { position: p, defect: _ }),
            Err(StreamError::Malformed { position: q, defect: _ }),
        ) => {
            if p < q {
                assert(defect_at(model, chunks, p as int) is None);
            }
            if q < p {
                assert(defect_at(model, chunks, q as int) is None);
            }
        },
        (Err(StreamError::Malformed { position: p, defect: _ }), _) => {
            assert(defect_at(model, chunks, p as int) is None);
        },
        (_, Err(StreamError::Malformed { position: q, defect: _ })) => {
            assert(defect_at(model, chunks, q as int) is None);
        },
        _ => {},
    }
}

} // verus!
