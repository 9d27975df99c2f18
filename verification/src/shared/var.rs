//! The tagged value that crosses the host/engine boundary.
//!
//! Exactly one tag is authoritative for each value; reading through the
//! wrong accessor fails with `TypeMismatch` rather than returning garbage.
//! Floating-point payloads are carried as their IEEE 754 bit patterns, so
//! that the value itself is plain data; only the unverified boundary layer
//! converts bit patterns to machine floats.
//!
//! Engine-native payloads (`Object`) are opaque tokens into whichever
//! engine's heap currently owns them; they are never dereferenced here.
//! Host objects (`HostObject`) are integer indices into the object
//! registry, so the referent's lifetime is decoupled from any engine.

use vstd::prelude::*;

use crate::shared::error::PxError;

verus! {

/// The tag of a boundary value.
#[derive(Debug, Clone, Copy, PartialEq, Eq, Structural)]
pub enum VarType {
    Null,
    Bool,
    Int32,
    Int64,
    UInt32,
    UInt64,
    Float32,
    Float64,
    String,
    /// An engine-native payload, valid only inside the owning engine.
    Object,
    /// An index into the object registry.
    HostObject,
}

/// A boundary value: one variant per tag, each carrying its payload.
#[derive(Debug)]
pub enum Var {
    Null,
    Bool(bool),
    Int32(i32),
    Int64(i64),
    UInt32(u32),
    UInt64(u64),
    /// IEEE 754 single-precision bit pattern.
    Float32(u32),
    /// IEEE 754 double-precision bit pattern.
    Float64(u64),
    Str(String),
    /// An opaque engine-native token; never dereferenced by this crate.
    Object(u64),
    /// An object registry index.
    HostObject(i32),
}

/// What the boolean accessor returns for each value.
pub open spec fn spec_get_bool(v: Var) -> Result<bool, PxError> {
    match v {
        Var::Bool(b) => Ok(b),
        _ => Err(PxError::TypeMismatch),
    }
}

/// What the 32-bit signed accessor returns for each value.
pub open spec fn spec_get_i32(v: Var) -> Result<i32, PxError> {
    match v {
        Var::Int32(x) => Ok(x),
        _ => Err(PxError::TypeMismatch),
    }
}

/// What the 64-bit signed accessor returns for each value.
pub open spec fn spec_get_i64(v: Var) -> Result<i64, PxError> {
    match v {
        Var::Int64(x) => Ok(x),
        _ => Err(PxError::TypeMismatch),
    }
}

/// What the 32-bit unsigned accessor returns for each value.
pub open spec fn spec_get_u32(v: Var) -> Result<u32, PxError> {
    match v {
        Var::UInt32(x) => Ok(x),
        _ => Err(PxError::TypeMismatch),
    }
}

/// What the 64-bit unsigned accessor returns for each value.
pub open spec fn spec_get_u64(v: Var) -> Result<u64, PxError> {
    match v {
        Var::UInt64(x) => Ok(x),
        _ => Err(PxError::TypeMismatch),
    }
}

/// What the single-precision accessor returns for each value.
pub open spec fn spec_get_f32_bits(v: Var) -> Result<u32, PxError> {
    match v {
        Var::Float32(x) => Ok(x),
        _ => Err(PxError::TypeMismatch),
    }
}

/// What the double-precision accessor returns for each value.
pub open spec fn spec_get_f64_bits(v: Var) -> Result<u64, PxError> {
    match v {
        Var::Float64(x) => Ok(x),
        _ => Err(PxError::TypeMismatch),
    }
}

/// What the string accessor returns for each value.
pub open spec fn spec_get_string(v: Var) -> Result<String, PxError> {
    match v {
        Var::Str(s) => Ok(s),
        _ => Err(PxError::TypeMismatch),
    }
}

/// What the engine-native accessor returns for each value.
pub open spec fn spec_get_object_token(v: Var) -> Result<u64, PxError> {
    match v {
        Var::Object(x) => Ok(x),
        _ => Err(PxError::TypeMismatch),
    }
}

/// What the host-object accessor returns for each value.
pub open spec fn spec_get_object_idx(v: Var) -> Result<i32, PxError> {
    match v {
        Var::HostObject(x) => Ok(x),
        _ => Err(PxError::TypeMismatch),
    }
}

/// For every primitive tag, reading a freshly constructed value through
/// the matching accessor yields exactly the payload it was constructed
/// from: construction and access invert, for all payloads.
pub proof fn lemma_construct_get_roundtrip()
    ensures
        forall|b: bool| spec_get_bool(Var::Bool(b)) == Ok::<bool, PxError>(b),
        forall|x: i32| spec_get_i32(Var::Int32(x)) == Ok::<i32, PxError>(x),
        forall|x: i64| spec_get_i64(Var::Int64(x)) == Ok::<i64, PxError>(x),
        forall|x: u32| spec_get_u32(Var::UInt32(x)) == Ok::<u32, PxError>(x),
        forall|x: u64| spec_get_u64(Var::UInt64(x)) == Ok::<u64, PxError>(x),
        forall|x: u32| spec_get_f32_bits(Var::Float32(x)) == Ok::<u32, PxError>(x),
        forall|x: u64| spec_get_f64_bits(Var::Float64(x)) == Ok::<u64, PxError>(x),
        forall|s: String| spec_get_string(Var::Str(s)) == Ok::<String, PxError>(s),
        forall|x: u64| spec_get_object_token(Var::Object(x)) == Ok::<u64, PxError>(x),
        forall|x: i32| spec_get_object_idx(Var::HostObject(x)) == Ok::<i32, PxError>(x),
{
}

impl Clone for Var {
    /// Cloning copies the payload; the copy of a string value owns its own
    /// buffer.
    fn clone(&self) -> (r: Var)
        ensures
            r == *self,
    {
        match self {
            Var::Null => Var::Null,
            Var::Bool(b) => Var::Bool(*b),
            Var::Int32(x) => Var::Int32(*x),
            Var::Int64(x) => Var::Int64(*x),
            Var::UInt32(x) => Var::UInt32(*x),
            Var::UInt64(x) => Var::UInt64(*x),
            Var::Float32(x) => Var::Float32(*x),
            Var::Float64(x) => Var::Float64(*x),
            Var::Str(s) => Var::Str(s.clone()),
            Var::Object(t) => Var::Object(*t),
            Var::HostObject(i) => Var::HostObject(*i),
        }
    }
}

impl Var {
    /// The authoritative tag of this value.
    pub open spec fn tag(self) -> VarType {
        match self {
            Var::Null => VarType::Null,
            Var::Bool(_) => VarType::Bool,
            Var::Int32(_) => VarType::Int32,
            Var::Int64(_) => VarType::Int64,
            Var::UInt32(_) => VarType::UInt32,
            Var::UInt64(_) => VarType::UInt64,
            Var::Float32(_) => VarType::Float32,
            Var::Float64(_) => VarType::Float64,
            Var::Str(_) => VarType::String,
            Var::Object(_) => VarType::Object,
            Var::HostObject(_) => VarType::HostObject,
        }
    }

    /// Construct a Null value.
    pub fn new_null() -> (v: Var)
        ensures
            v == Var::Null,
    {
        Var::Null
    }

    /// Construct a boolean value.
    pub fn new_bool(val: bool) -> (v: Var)
        ensures
            v == Var::Bool(val),
    {
        Var::Bool(val)
    }

    /// Construct a 32-bit signed integer value.
    pub fn new_i32(val: i32) -> (v: Var)
        ensures
            v == Var::Int32(val),
    {
        Var::Int32(val)
    }

    /// Construct a 64-bit signed integer value.
    pub fn new_i64(val: i64) -> (v: Var)
        ensures
            v == Var::Int64(val),
    {
        Var::Int64(val)
    }

    /// Construct a 32-bit unsigned integer value.
    pub fn new_u32(val: u32) -> (v: Var)
        ensures
            v == Var::UInt32(val),
    {
        Var::UInt32(val)
    }

    /// Construct a 64-bit unsigned integer value.
    pub fn new_u64(val: u64) -> (v: Var)
        ensures
            v == Var::UInt64(val),
    {
        Var::UInt64(val)
    }

    /// Construct a single-precision float value from its bit pattern.
    pub fn new_f32_bits(bits: u32) -> (v: Var)
        ensures
            v == Var::Float32(bits),
    {
        Var::Float32(bits)
    }

    /// Construct a double-precision float value from its bit pattern.
    pub fn new_f64_bits(bits: u64) -> (v: Var)
        ensures
            v == Var::Float64(bits),
    {
        Var::Float64(bits)
    }

    /// Construct a string value, taking ownership of the buffer.
    pub fn new_string(val: String) -> (v: Var)
        ensures
            v == Var::Str(val),
    {
        Var::Str(val)
    }

    /// Construct an engine-native value from an opaque engine token.
    pub fn new_object(token: u64) -> (v: Var)
        ensures
            v == Var::Object(token),
    {
        Var::Object(token)
    }

    /// Construct a host-object reference from an object registry index.
    pub fn new_host_object(idx: i32) -> (v: Var)
        ensures
            v == Var::HostObject(idx),
    {
        Var::HostObject(idx)
    }

    /// The tag of this value, as runtime data.
    pub fn get_tag(&self) -> (t: VarType)
        ensures
            t == self.tag(),
    {
        match self {
            Var::Null => VarType::Null,
            Var::Bool(_) => VarType::Bool,
            Var::Int32(_) => VarType::Int32,
            Var::Int64(_) => VarType::Int64,
            Var::UInt32(_) => VarType::UInt32,
            Var::UInt64(_) => VarType::UInt64,
            Var::Float32(_) => VarType::Float32,
            Var::Float64(_) => VarType::Float64,
            Var::Str(_) => VarType::String,
            Var::Object(_) => VarType::Object,
            Var::HostObject(_) => VarType::HostObject,
        }
    }

    /// Whether this value carries the given tag.
    pub fn is_type(&self, t: VarType) -> (r: bool)
        ensures
            r == (self.tag() == t),
    {
        self.get_tag() == t
    }

    /// Whether this value is a string.
    pub fn is_string(&self) -> (r: bool)
        ensures
            r == (self.tag() == VarType::String),
    {
        self.is_type(VarType::String)
    }

    /// Whether this value is a host-object reference.
    pub fn is_host_object(&self) -> (r: bool)
        ensures
            r == (self.tag() == VarType::HostObject),
    {
        self.is_type(VarType::HostObject)
    }

    /// Read the boolean payload; `TypeMismatch` on any other tag.
    pub fn get_bool(&self) -> (r: Result<bool, PxError>)
        ensures
            r == spec_get_bool(*self),
            (r matches Ok(b) ==> *self == Var::Bool(b)),
            (r is Err ==> !(*self is Bool)),
    {
        match self {
            Var::Bool(b) => Ok(*b),
            _ => Err(PxError::TypeMismatch),
        }
    }

    /// Read the 32-bit signed payload; `TypeMismatch` on any other tag.
    pub fn get_i32(&self) -> (r: Result<i32, PxError>)
        ensures
            r == spec_get_i32(*self),
            (r matches Ok(x) ==> *self == Var::Int32(x)),
            (r is Err ==> !(*self is Int32)),
    {
        match self {
            Var::Int32(x) => Ok(*x),
            _ => Err(PxError::TypeMismatch),
        }
    }

    /// Read the 64-bit signed payload; `TypeMismatch` on any other tag.
    pub fn get_i64(&self) -> (r: Result<i64, PxError>)
        ensures
            r == spec_get_i64(*self),
            (r matches Ok(x) ==> *self == Var::Int64(x)),
            (r is Err ==> !(*self is Int64)),
    {
        match self {
            Var::Int64(x) => Ok(*x),
            _ => Err(PxError::TypeMismatch),
        }
    }

    /// Read the 32-bit unsigned payload; `TypeMismatch` on any other tag.
    pub fn get_u32(&self) -> (r: Result<u32, PxError>)
        ensures
            r == spec_get_u32(*self),
            (r matches Ok(x) ==> *self == Var::UInt32(x)),
            (r is Err ==> !(*self is UInt32)),
    {
        match self {
            Var::UInt32(x) => Ok(*x),
            _ => Err(PxError::TypeMismatch),
        }
    }

    /// Read the 64-bit unsigned payload; `TypeMismatch` on any other tag.
    pub fn get_u64(&self) -> (r: Result<u64, PxError>)
        ensures
            r == spec_get_u64(*self),
            (r matches Ok(x) ==> *self == Var::UInt64(x)),
            (r is Err ==> !(*self is UInt64)),
    {
        match self {
            Var::UInt64(x) => Ok(*x),
            _ => Err(PxError::TypeMismatch),
        }
    }

    /// Read the single-precision bit pattern; `TypeMismatch` on any other tag.
    pub fn get_f32_bits(&self) -> (r: Result<u32, PxError>)
        ensures
            r == spec_get_f32_bits(*self),
            (r matches Ok(x) ==> *self == Var::Float32(x)),
            (r is Err ==> !(*self is Float32)),
    {
        match self {
            Var::Float32(x) => Ok(*x),
            _ => Err(PxError::TypeMismatch),
        }
    }

    /// Read the double-precision bit pattern; `TypeMismatch` on any other tag.
    pub fn get_f64_bits(&self) -> (r: Result<u64, PxError>)
        ensures
            r == spec_get_f64_bits(*self),
            (r matches Ok(x) ==> *self == Var::Float64(x)),
            (r is Err ==> !(*self is Float64)),
    {
        match self {
            Var::Float64(x) => Ok(*x),
            _ => Err(PxError::TypeMismatch),
        }
    }

    /// Borrow the string payload; `TypeMismatch` on any other tag. Strings
    /// do not widen.
    pub fn get_string(&self) -> (r: Result<&String, PxError>)
        ensures
            match r {
                Ok(s) => *self == Var::Str(*s) && spec_get_string(*self) == Ok::<
                    String,
                    PxError,
                >(*s),
                Err(e) => !(*self is Str) && e is TypeMismatch && spec_get_string(*self)
                    == Err::<String, PxError>(e),
            },
    {
        match self {
            Var::Str(s) => Ok(s),
            _ => Err(PxError::TypeMismatch),
        }
    }

    /// Read the engine-native token; `TypeMismatch` on any other tag.
    pub fn get_object_token(&self) -> (r: Result<u64, PxError>)
        ensures
            r == spec_get_object_token(*self),
            (r matches Ok(x) ==> *self == Var::Object(x)),
            (r is Err ==> !(*self is Object)),
    {
        match self {
            Var::Object(x) => Ok(*x),
            _ => Err(PxError::TypeMismatch),
        }
    }

    /// Read the object registry index; `TypeMismatch` on any other tag.
    pub fn get_object_idx(&self) -> (r: Result<i32, PxError>)
        ensures
            r == spec_get_object_idx(*self),
            (r matches Ok(x) ==> *self == Var::HostObject(x)),
            (r is Err ==> !(*self is HostObject)),
    {
        match self {
            Var::HostObject(x) => Ok(*x),
            _ => Err(PxError::TypeMismatch),
        }
    }
}

/// The released form of a value: whatever it held, its owned storage is
/// gone and the slot is Null.
pub open spec fn spec_freed(v: Var) -> Var {
    Var::Null
}

/// Release a value owned by the caller: its owned storage (a string buffer)
/// is dropped and the slot becomes Null. Releasing a Null value is a no-op.
pub fn free_value(var: &mut Var)
    ensures
        *final(var) == spec_freed(*old(var)),
        *final(var) == Var::Null,
{
    *var = Var::Null;
}

/// Releasing is idempotent: releasing a value twice leaves exactly what
/// releasing it once leaves, so a release after a release frees nothing
/// again.
pub proof fn lemma_free_value_idempotent()
    ensures
        forall|v: Var| spec_freed(spec_freed(v)) == spec_freed(v),
{
}

} // verus!
