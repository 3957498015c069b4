//! Handles of shader programs and the fixed-capacity storage buffer that
//! carries scene records to the shader.
//!
//! The graphics calls themselves are made by the caller. This module keeps
//! what they are made with: which stages a program is built from, how many
//! bytes a buffer reserves, and the bytes that each update stages for upload.

use vstd::prelude::*;
use crate::layout::encode_all;
use crate::layout::encode_records;
use crate::layout::lemma_encode_all_len;
use crate::layout::GpuRecord;

verus! {

/// A linked shader program.
#[derive(Clone, Copy, PartialEq, Eq, Structural, Debug)]
pub struct Shader {
    pub pid: u32,
}

/// The stage of the pipeline that a shader source is compiled for.
#[derive(Clone, Copy, PartialEq, Eq, Structural, Debug)]
pub enum ShaderType {
    Vertex,
    Fragment,
}

/// Why a shader program could not be built.
#[derive(Debug)]
pub enum ShaderError {
    /// The path of a shader source has no extension.
    MissingExtension,
    /// The file extension names no known stage; it is carried along.
    UnknownExtension(String),
    /// A stage did not compile; the compiler's log is carried along.
    CompilationFailed(String),
    /// The program did not link; the linker's log is carried along.
    LinkFailed(String),
}

/// A shader program under construction: the program and the stages compiled
/// for it so far, in the order they were added.
pub struct ShaderBuilder {
    pid: u32,
    shaders: Vec<u32>,
}

/// What a program under construction is, as a value.
pub struct PipelineModel {
    pub pid: u32,
    pub stages: Seq<u32>,
}

impl View for ShaderBuilder {
    type V = PipelineModel;

    closed spec fn view(&self) -> PipelineModel {
        PipelineModel { pid: self.pid, stages: self.shaders@ }
    }
}

/// The characters of `vert`.
pub open spec fn vertex_extension() -> Seq<char> {
    seq!['v', 'e', 'r', 't']
}

/// The characters of `frag`.
pub open spec fn fragment_extension() -> Seq<char> {
    seq!['f', 'r', 'a', 'g']
}

/// Whether `text` is made of exactly the four characters given.
fn is_four(text: &str, c0: char, c1: char, c2: char, c3: char) -> (b: bool)
    ensures
        b == (text@ == seq![c0, c1, c2, c3]),
{
    if text.unicode_len() != 4 {
        return false;
    }
    let same: bool = text.get_char(0) == c0 && text.get_char(1) == c1 && text.get_char(2) == c2
        && text.get_char(3) == c3;
    assert(same ==> text@ =~= seq![c0, c1, c2, c3]);
    same
}

impl ShaderType {
    /// The stage that a file extension stands for: `vert` for a vertex
    /// shader, `frag` for a fragment shader. Any other extension is handed
    /// back as the error.
    pub fn from_ext(ext: &str) -> (r: Result<ShaderType, String>)
        ensures
            ext@ == vertex_extension() ==> r == Ok::<ShaderType, String>(ShaderType::Vertex),
            ext@ == fragment_extension() ==> r == Ok::<ShaderType, String>(ShaderType::Fragment),
            ext@ != vertex_extension() && ext@ != fragment_extension() ==> r is Err
                && r->Err_0@ == ext@,
    {
        if is_four(ext, 'v', 'e', 'r', 't') {
            Ok(ShaderType::Vertex)
        } else if is_four(ext, 'f', 'r', 'a', 'g') {
            Ok(ShaderType::Fragment)
        } else {
            Err(ext.to_owned())
        }
    }
}

/// The stage to compile a source file for, from the extension of its path:
/// `None` stands for a path without one.
pub fn stage_of_extension(ext: Option<&str>) -> (r: Result<ShaderType, ShaderError>)
    ensures
        match ext {
            None => r is Err && r->Err_0 == ShaderError::MissingExtension,
            Some(e) => {
                &&& e@ == vertex_extension() ==> r is Ok && r->Ok_0 == ShaderType::Vertex
                &&& e@ == fragment_extension() ==> r is Ok && r->Ok_0 == ShaderType::Fragment
                &&& e@ != vertex_extension() && e@ != fragment_extension() ==> r is Err
                    && r->Err_0 is UnknownExtension && r->Err_0->UnknownExtension_0@ == e@
            },
        },
{
    match ext {
        None => Err(ShaderError::MissingExtension),
        Some(e) => match ShaderType::from_ext(e) {
            Ok(stage) => Ok(stage),
            Err(unknown) => Err(ShaderError::UnknownExtension(unknown)),
        },
    }
}

impl ShaderBuilder {
    /// A builder for the program `pid`, with no stage yet.
    pub fn new(pid: u32) -> (b: ShaderBuilder)
        ensures
            b@ == (PipelineModel { pid, stages: Seq::<u32>::empty() }),
    {
        ShaderBuilder { pid, shaders: Vec::new() }
    }

    /// The program being built.
    pub fn pid(&self) -> (n: u32)
        ensures
            n == self@.pid,
    {
        self.pid
    }

    /// The stages compiled so far, oldest first.
    pub fn shaders(&self) -> (stages: &Vec<u32>)
        ensures
            stages@ == self@.stages,
    {
        &self.shaders
    }

    /// Takes in the stage `shader` with the outcome of its compilation.
    ///
    /// A stage that compiled joins the pipeline behind the earlier ones. One
    /// that did not ends the build with the compiler's log.
    pub fn compile(self, shader: u32, status: Result<(), String>) -> (r: Result<
        ShaderBuilder,
        ShaderError,
    >)
        ensures
            match status {
                Ok(()) => r is Ok && r->Ok_0@ == (PipelineModel {
                    pid: self@.pid,
                    stages: self@.stages.push(shader),
                }),
                Err(log) => r is Err && r->Err_0 == ShaderError::CompilationFailed(log),
            },
    {
        match status {
            Ok(()) => {
                let mut shaders = self.shaders;
                shaders.push(shader);
                Ok(ShaderBuilder { pid: self.pid, shaders })
            },
            Err(log) => Err(ShaderError::CompilationFailed(log)),
        }
    }

    /// Ends the build with the outcome of linking: the program's handle, or
    /// the linker's log.
    pub fn link(self, status: Result<(), String>) -> (r: Result<Shader, ShaderError>)
        ensures
            match status {
                Ok(()) => r is Ok && r->Ok_0 == (Shader { pid: self@.pid }),
                Err(log) => r is Err && r->Err_0 == ShaderError::LinkFailed(log),
            },
    {
        match status {
            Ok(()) => Ok(Shader { pid: self.pid }),
            Err(log) => Err(ShaderError::LinkFailed(log)),
        }
    }
}

/// Why a storage buffer could not be created or updated.
#[derive(Clone, Copy, PartialEq, Eq, Structural, Debug)]
pub enum BufferError {
    /// The shader has no storage block of the requested name.
    BlockNotFound,
    /// An update holds more records than the buffer was created for.
    CapacityExceeded { requested: usize, capacity: usize },
    /// The records would fill more bytes than one buffer can hold.
    TooLarge,
}

/// The most bytes that one buffer can hold.
pub open spec fn max_buffer_bytes() -> int {
    isize::MAX as int
}

/// The bytes that `count` records of `stride` bytes fill.
///
/// Fails with `TooLarge`, and only then, when that is more than one buffer
/// can hold.
pub fn buffer_bytes(count: usize, stride: usize) -> (r: Result<usize, BufferError>)
    ensures
        match r {
            Ok(bytes) => bytes == count * stride && count * stride <= max_buffer_bytes(),
            Err(e) => e == BufferError::TooLarge && count * stride > max_buffer_bytes(),
        },
{
    let limit: usize = isize::MAX as usize;
    if stride == 0 {
        assert(count * stride == 0) by (nonlinear_arith)
            requires
                stride == 0,
        ;
        return Ok(0);
    }
    if count > limit / stride {
        proof {
            let n: int = count as int;
            let s: int = stride as int;
            let l: int = limit as int;
            assert(n * s > l) by (nonlinear_arith)
                requires
                    n > l / s,
                    s > 0,
            ;
        }
        return Err(BufferError::TooLarge);
    }
    proof {
        let n: int = count as int;
        let s: int = stride as int;
        let l: int = limit as int;
        assert(0 <= n * s <= l) by (nonlinear_arith)
            requires
                0 <= n <= l / s,
                s > 0,
        ;
    }
    Ok(count * stride)
}

/// What a storage buffer is, as a value.
pub struct BufferModel<T> {
    /// The program whose storage block the buffer feeds.
    pub pid: u32,
    /// The buffer's own name.
    pub bid: u32,
    /// The binding point shared with the program's storage block.
    pub binding: u32,
    /// The number of records the buffer was created for.
    pub capacity: nat,
    /// The records that are live: those of the last update.
    pub records: Seq<T>,
    /// Every byte of the buffer, `capacity` strides long.
    pub image: Seq<u8>,
}

impl<T: GpuRecord> BufferModel<T> {
    /// The buffer is exactly as large as its capacity demands, holds no more
    /// records than that, and starts with the encoding of the live records.
    pub open spec fn wf(self) -> bool {
        &&& self.image.len() == self.capacity * T::stride()
        &&& self.image.len() <= max_buffer_bytes()
        &&& self.records.len() <= self.capacity
        &&& self.image.take(encode_all(self.records).len() as int) == encode_all(self.records)
    }

    /// The buffer after `records` were written over its start: the live
    /// records are replaced, the bytes behind them stay, and the buffer's
    /// identity and size do not change.
    pub open spec fn updated(self, records: Seq<T>) -> BufferModel<T> {
        BufferModel {
            records,
            image: encode_all(records) + self.image.skip(encode_all(records).len() as int),
            ..self
        }
    }

    /// The buffer after an update with `records` was asked for: updated where
    /// they fit its capacity, untouched where they do not.
    pub open spec fn after_update(self, records: Seq<T>) -> BufferModel<T> {
        if records.len() <= self.capacity {
            self.updated(records)
        } else {
            self
        }
    }

    /// The buffer after each of `updates` was asked for, in order.
    pub open spec fn after_updates(self, updates: Seq<Seq<T>>) -> BufferModel<T>
        decreases updates.len(),
    {
        if updates.len() == 0 {
            self
        } else {
            self.after_updates(updates.drop_last()).after_update(updates.last())
        }
    }

    /// An update that fits leaves a well-formed buffer of the same identity
    /// and size.
    pub proof fn lemma_updated(self, records: Seq<T>)
        requires
            self.wf(),
            records.len() <= self.capacity,
        ensures
            self.updated(records).wf(),
            self.updated(records).image.len() == self.image.len(),
    {
        T::lemma_stride();
        lemma_encode_all_len(records);
        let n: int = records.len() as int;
        let c: int = self.capacity as int;
        let s: int = T::stride() as int;
        assert(n * s <= c * s) by (nonlinear_arith)
            requires
                0 <= n <= c,
                s >= 0,
        ;
        let after = self.updated(records);
        assert(after.image.take(encode_all(records).len() as int) =~= encode_all(records));
    }

    /// Whatever updates are asked for, and whether or not they fit, the
    /// buffer stays the one that was created: the same program, name and
    /// binding, the same capacity, the same number of bytes, and never more
    /// live records than its capacity.
    pub proof fn lemma_identity_kept(self, updates: Seq<Seq<T>>)
        requires
            self.wf(),
        ensures
            self.after_updates(updates).wf(),
            self.after_updates(updates).pid == self.pid,
            self.after_updates(updates).bid == self.bid,
            self.after_updates(updates).binding == self.binding,
            self.after_updates(updates).capacity == self.capacity,
            self.after_updates(updates).image.len() == self.image.len(),
            self.after_updates(updates).records.len() <= self.capacity,
        decreases updates.len(),
    {
        if updates.len() > 0 {
            let before = self.after_updates(updates.drop_last());
            self.lemma_identity_kept(updates.drop_last());
            if updates.last().len() <= before.capacity {
                before.lemma_updated(updates.last());
            }
        }
    }
}

/// A storage buffer being set up.
pub struct SSBOBuilder<T: GpuRecord> {
    pid: u32,
    bid: u32,
    binding: u32,
    data: Vec<T>,
    image: Vec<u8>,
}

/// A storage buffer of fixed capacity, with the bytes staged for it.
pub struct SSBO<T: GpuRecord> {
    pid: u32,
    bid: u32,
    binding: u32,
    capacity: usize,
    data: Vec<T>,
    image: Vec<u8>,
}

impl<T: GpuRecord> View for SSBOBuilder<T> {
    type V = BufferModel<T>;

    closed spec fn view(&self) -> BufferModel<T> {
        BufferModel {
            pid: self.pid,
            bid: self.bid,
            binding: self.binding,
            capacity: self.data@.len(),
            records: self.data@,
            image: self.image@,
        }
    }
}

impl<T: GpuRecord> View for SSBO<T> {
    type V = BufferModel<T>;

    closed spec fn view(&self) -> BufferModel<T> {
        BufferModel {
            pid: self.pid,
            bid: self.bid,
            binding: self.binding,
            capacity: self.capacity as nat,
            records: self.data@,
            image: self.image@,
        }
    }
}

impl<T: GpuRecord> SSBOBuilder<T> {
    #[verifier::type_invariant]
    spec fn inv(self) -> bool {
        self@.wf()
    }

    /// A builder for the buffer named `buffer_id`, with no data and bound to
    /// nothing yet.
    pub fn new(buffer_id: u32) -> (b: SSBOBuilder<T>)
        ensures
            b@.wf(),
            b@ == (BufferModel::<T> {
                pid: 0,
                bid: buffer_id,
                binding: 0,
                capacity: 0,
                records: Seq::<T>::empty(),
                image: Seq::<u8>::empty(),
            }),
    {
        let data: Vec<T> = Vec::new();
        let image: Vec<u8> = Vec::new();
        proof {
            let model = BufferModel::<T> {
                pid: 0,
                bid: buffer_id,
                binding: 0,
                capacity: 0,
                records: data@,
                image: image@,
            };
            assert(encode_all(data@) =~= Seq::<u8>::empty());
            assert(image@.take(0) =~= encode_all(data@));
            assert(model.capacity * T::stride() == 0) by (nonlinear_arith)
                requires
                    model.capacity == 0,
            ;
            assert(model.wf());
        }
        SSBOBuilder { pid: 0, bid: buffer_id, binding: 0, data, image }
    }

    /// Fixes the buffer's capacity at the number of `data`'s records and
    /// stages their bytes as its first contents.
    ///
    /// Fails with `TooLarge`, and only then, when the records' bytes pass
    /// what one buffer can hold.
    pub fn set_data(self, data: Vec<T>) -> (r: Result<SSBOBuilder<T>, BufferError>)
        ensures
            match r {
                Ok(b) => {
                    &&& data@.len() * T::stride() <= max_buffer_bytes()
                    &&& b@.wf()
                    &&& b@ == (BufferModel {
                        capacity: data@.len(),
                        records: data@,
                        image: encode_all(data@),
                        ..self@
                    })
                },
                Err(e) => e == BufferError::TooLarge && data@.len() * T::stride()
                    > max_buffer_bytes(),
            },
    {
        proof {
            T::lemma_stride();
            lemma_encode_all_len(data@);
        }
        match buffer_bytes(data.len(), T::byte_size()) {
            Ok(_) => {},
            Err(e) => {
                return Err(e);
            },
        }
        let mut image: Vec<u8> = Vec::new();
        encode_records(&data, &mut image);
        assert(image@ =~= encode_all(data@));
        assert(image@.take(image@.len() as int) =~= image@);
        Ok(SSBOBuilder { pid: self.pid, bid: self.bid, binding: self.binding, data, image })
    }

    /// Ties the buffer to a storage block of the program `shader_pid`, under
    /// the binding point `shader_binding`. `block_index` is what the program
    /// answered when asked for the block by name: its index, or `None` where
    /// it has no such block.
    ///
    /// Fails with `BlockNotFound`, and only then, when `block_index` is
    /// `None`.
    pub fn set_shader_details(
        self,
        shader_pid: u32,
        shader_binding: u32,
        block_index: Option<u32>,
    ) -> (r: Result<SSBOBuilder<T>, BufferError>)
        ensures
            match r {
                Ok(b) => {
                    &&& block_index is Some
                    &&& b@.wf()
                    &&& b@ == (BufferModel { pid: shader_pid, binding: shader_binding, ..self@ })
                },
                Err(e) => e == BufferError::BlockNotFound && block_index is None,
            },
    {
        if block_index.is_none() {
            return Err(BufferError::BlockNotFound);
        }
        proof {
            use_type_invariant(&self);
        }
        Ok(
            SSBOBuilder {
                pid: shader_pid,
                bid: self.bid,
                binding: shader_binding,
                data: self.data,
                image: self.image,
            },
        )
    }

    /// Bytes to reserve for the buffer.
    pub fn reserved_bytes(&self) -> (n: usize)
        ensures
            n == self@.image.len(),
            n == self@.capacity * T::stride(),
    {
        proof {
            use_type_invariant(self);
        }
        self.image.len()
    }

    /// The bytes to create the buffer with.
    pub fn image(&self) -> (bytes: &Vec<u8>)
        ensures
            bytes@ == self@.image,
    {
        &self.image
    }

    /// The finished buffer. Its capacity is that of the data given, for good.
    pub fn link(self) -> (b: SSBO<T>)
        ensures
            b@.wf(),
            b@ == self@,
    {
        proof {
            use_type_invariant(&self);
        }
        let capacity: usize = self.data.len();
        SSBO {
            pid: self.pid,
            bid: self.bid,
            binding: self.binding,
            capacity,
            data: self.data,
            image: self.image,
        }
    }
}

impl<T: GpuRecord> SSBO<T> {
    #[verifier::type_invariant]
    spec fn inv(self) -> bool {
        self@.wf()
    }

    /// Replaces the live records by `new_data` and stages their bytes over the
    /// start of the buffer.
    ///
    /// Succeeds exactly when `new_data` holds no more records than the buffer
    /// was created for. Otherwise nothing is written: the buffer is as it
    /// was, and the error names both counts.
    pub fn update_data(&mut self, new_data: Vec<T>) -> (r: Result<(), BufferError>)
        ensures
            final(self)@.wf(),
            final(self)@ == old(self)@.after_update(new_data@),
            match r {
                Ok(()) => {
                    &&& new_data@.len() <= old(self)@.capacity
                    &&& final(self)@ == old(self)@.updated(new_data@)
                },
                Err(e) => {
                    &&& new_data@.len() > old(self)@.capacity
                    &&& e == (BufferError::CapacityExceeded {
                        requested: new_data.len(),
                        capacity: old(self)@.capacity as usize,
                    })
                    &&& *final(self) == *old(self)
                },
            },
    {
        proof {
            use_type_invariant(&*self);
        }
        if new_data.len() > self.capacity {
            return Err(
                BufferError::CapacityExceeded {
                    requested: new_data.len(),
                    capacity: self.capacity,
                },
            );
        }
        let mut image: Vec<u8> = Vec::new();
        encode_records(&new_data, &mut image);
        assert(image@ =~= encode_all(new_data@));
        proof {
            T::lemma_stride();
            lemma_encode_all_len(new_data@);
            let n: int = new_data@.len() as int;
            let c: int = self.capacity as int;
            let s: int = T::stride() as int;
            assert(n * s <= c * s) by (nonlinear_arith)
                requires
                    0 <= n <= c,
                    s >= 0,
            ;
        }
        let written: usize = image.len();
        let total: usize = self.image.len();
        let mut i: usize = written;
        while i < total
            invariant
                written <= i <= total,
                total == self.image@.len(),
                written == encode_all(new_data@).len(),
                image@ == encode_all(new_data@) + self.image@.subrange(written as int, i as int),
            decreases total - i,
        {
            image.push(self.image[i]);
            i = i + 1;
            assert(image@ =~= encode_all(new_data@) + self.image@.subrange(
                written as int,
                i as int,
            ));
        }
        assert(self.image@.subrange(written as int, total as int) =~= self.image@.skip(
            written as int,
        ));
        assert(image@.take(written as int) =~= encode_all(new_data@));
        *self = SSBO {
            pid: self.pid,
            bid: self.bid,
            binding: self.binding,
            capacity: self.capacity,
            data: new_data,
            image,
        };
        Ok(())
    }

    /// The program whose storage block the buffer feeds.
    pub fn pid(&self) -> (n: u32)
        ensures
            n == self@.pid,
    {
        self.pid
    }

    /// The buffer's own name.
    pub fn bid(&self) -> (n: u32)
        ensures
            n == self@.bid,
    {
        self.bid
    }

    /// The binding point shared with the program's storage block.
    pub fn binding(&self) -> (n: u32)
        ensures
            n == self@.binding,
    {
        self.binding
    }

    /// The number of records the buffer was created for.
    pub fn capacity(&self) -> (n: usize)
        ensures
            n == self@.capacity,
    {
        self.capacity
    }

    /// The number of live records: what the shader is told to read.
    pub fn live_count(&self) -> (n: usize)
        ensures
            n == self@.records.len(),
            n <= self@.capacity,
    {
        proof {
            use_type_invariant(self);
        }
        self.data.len()
    }

    /// The live records.
    pub fn data(&self) -> (records: &Vec<T>)
        ensures
            records@ == self@.records,
    {
        &self.data
    }

    /// Every byte of the buffer as staged.
    pub fn image(&self) -> (bytes: &Vec<u8>)
        ensures
            bytes@ == self@.image,
            bytes@.len() == self@.capacity * T::stride(),
    {
        proof {
            use_type_invariant(self);
        }
        &self.image
    }

    /// Bytes at the start of the buffer that the live records fill.
    pub fn live_bytes(&self) -> (n: usize)
        ensures
            n == self@.records.len() * T::stride(),
            n == encode_all(self@.records).len(),
            n <= self@.image.len(),
    {
        proof {
            use_type_invariant(self);
            T::lemma_stride();
            lemma_encode_all_len(self.data@);
            let k: int = self.data@.len() as int;
            let c: int = self.capacity as int;
            let s: int = T::stride() as int;
            assert(k * s <= c * s) by (nonlinear_arith)
                requires
                    0 <= k <= c,
                    s >= 0,
            ;
        }
        self.data.len() * T::byte_size()
    }
}

} // verus!
