//! The layout of a vertex array: how the attributes of a vertex are read
//! out of the buffers bound to it.

use vstd::prelude::*;
use crate::gl_wrappers::buffer::{BufferType, BufferView};

verus! {

/// The type of the components of an attribute.
#[derive(Clone, Copy, Debug, PartialEq, Eq, Structural)]
pub enum DataType {
    /// 32-bit floating point numbers.
    Float,
}

/// How the attribute at `index` is read: `count` components of `data_type`,
/// `relative_offset` bytes into the element of the buffer bound at `index`.
#[derive(Clone, Copy, Debug, PartialEq, Eq, Structural)]
pub struct AttributeFormat {
    pub index: u32,
    pub count: i32,
    pub data_type: DataType,
    pub normalized: bool,
    pub relative_offset: u32,
}

/// How often the buffer bound at `index` moves on to its next element: once
/// every `divisor` instances, or with every vertex if `divisor` is zero.
#[derive(Clone, Copy, Debug, PartialEq, Eq, Structural)]
pub struct Divisor {
    pub index: u32,
    pub divisor: u32,
}

/// Bytes of one component of a type.
pub open spec fn component_bytes(data_type: DataType) -> int {
    match data_type {
        DataType::Float => 4,
    }
}

/// Bytes of the attribute at `index` as the first `k` formats lay it out:
/// the last format given for an index is the one that counts.
pub open spec fn attribute_bytes(formats: Seq<AttributeFormat>, k: int, index: u32) -> Option<int>
    decreases k,
{
    if k <= 0 {
        None
    } else if formats[k - 1].index == index {
        Some(formats[k - 1].count * component_bytes(formats[k - 1].data_type))
    } else {
        attribute_bytes(formats, k - 1, index)
    }
}

/// The layout of a vertex array.
pub struct VAO {
    formats: Vec<AttributeFormat>,
    divisors: Vec<Divisor>,
}

/// The mathematical model of a layout: the formats and the divisors in the
/// order in which they were given.
pub struct VAOView {
    pub formats: Seq<AttributeFormat>,
    pub divisors: Seq<Divisor>,
}

impl VAOView {
    /// Bytes of the attribute at `index`, if the layout has one there.
    pub open spec fn stride(self, index: u32) -> Option<int> {
        attribute_bytes(self.formats, self.formats.len() as int, index)
    }

    /// Whether a ring can be a source of this layout: a ring of attributes
    /// has the stride of the attribute at its binding point, which is laid
    /// out; a ring of indices always can.
    pub open spec fn reads(self, ring: BufferView) -> bool {
        match ring.buffer_type {
            BufferType::Array(binding_point, stride) => self.stride(binding_point) == Some(
                stride as int,
            ),
            BufferType::Indice => true,
        }
    }
}

impl View for VAO {
    type V = VAOView;

    closed spec fn view(&self) -> VAOView {
        VAOView { formats: self.formats@, divisors: self.divisors@ }
    }
}

impl VAO {
    /// A layout without attributes.
    pub fn new() -> (vao: VAO)
        ensures
            vao@ == (VAOView { formats: Seq::empty(), divisors: Seq::empty() }),
    {
        VAO { formats: Vec::new(), divisors: Vec::new() }
    }

    /// Says how often the buffer at an index moves on to its next element.
    pub fn specify_divisor(&mut self, index: u32, divisor: u32)
        ensures
            final(self)@ == (VAOView {
                divisors: old(self)@.divisors.push(Divisor { index, divisor }),
                ..old(self)@
            }),
    {
        self.divisors.push(Divisor { index, divisor });
    }

    /// Says how the attribute at an index is read.
    pub fn specify_index_layout(
        &mut self,
        index: u32,
        count: i32,
        data_type: DataType,
        normalized: bool,
        relative_offset: u32,
    )
        ensures
            final(self)@ == (VAOView {
                formats: old(self)@.formats.push(
                    AttributeFormat { index, count, data_type, normalized, relative_offset },
                ),
                ..old(self)@
            }),
            final(self)@.stride(index) == Some(count * component_bytes(data_type)),
            forall|other: u32|
                other != index ==> final(self)@.stride(other) == old(self)@.stride(other),
    {
        let ghost before = self.formats@;
        self.formats.push(AttributeFormat { index, count, data_type, normalized, relative_offset });
        proof {
            assert forall|other: u32| other != index implies self@.stride(other) == attribute_bytes(
                before,
                before.len() as int,
                other,
            ) by {
                lemma_attribute_bytes_prefix(before, self.formats@, before.len() as int, other);
            }
        }
    }

    /// The formats of the attributes, in the order in which they were given.
    pub fn formats(&self) -> (formats: &Vec<AttributeFormat>)
        ensures
            formats@ == self@.formats,
    {
        &self.formats
    }

    /// The divisors, in the order in which they were given.
    pub fn divisors(&self) -> (divisors: &Vec<Divisor>)
        ensures
            divisors@ == self@.divisors,
    {
        &self.divisors
    }

    /// Bytes of the attribute at `index`, if the layout has one there.
    pub fn stride(&self, index: u32) -> (bytes: Option<i64>)
        ensures
            match self@.stride(index) {
                Some(stride) => bytes == Some(stride as i64),
                None => bytes is None,
            },
    {
        let mut k: usize = self.formats.len();
        while k > 0
            invariant
                k <= self.formats@.len(),
                self@.stride(index) == attribute_bytes(self.formats@, k as int, index),
            decreases k,
        {
            let format: AttributeFormat = self.formats[k - 1];
            if format.index == index {
                let bytes: i64 = match format.data_type {
                    DataType::Float => format.count as i64 * 4,
                };
                return Some(bytes);
            }
            k = k - 1;
        }
        None
    }
}

/// The bytes of an attribute depend on the formats looked at only.
proof fn lemma_attribute_bytes_prefix(
    first: Seq<AttributeFormat>,
    second: Seq<AttributeFormat>,
    k: int,
    index: u32,
)
    requires
        0 <= k <= first.len(),
        k <= second.len(),
        forall|i: int| 0 <= i < k ==> first[i] == second[i],
    ensures
        attribute_bytes(first, k, index) == attribute_bytes(second, k, index),
    decreases k,
{
    if k > 0 {
        lemma_attribute_bytes_prefix(first, second, k - 1, index);
    }
}

} // verus!
