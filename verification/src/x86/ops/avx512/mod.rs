//! AVX-512 family tokens and the k-mask register ops.

pub mod avx512bw;
pub mod avx512dq;
pub mod avx512f;
pub mod avx512vl;
pub mod avx512vl_bits;
pub mod avx512vl_masked;
pub mod avx512vl_ops;
pub mod avx512vnni;
pub mod avx512vpopcntdq;
pub mod kmask;
