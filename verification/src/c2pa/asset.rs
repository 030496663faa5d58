//! Asset type determination and classification from file paths.
use vstd::prelude::*;
use crate::error::{Error, Result};
use crate::text::{split_fields, split_on, str_eq, string_views};

verus! {

/// C2PA asset types for machine learning artifacts.
#[derive(Debug, Clone, Copy, PartialEq, Eq, Structural)]
pub enum AssetType {
    /// Generic dataset
    Dataset,
    /// TensorFlow dataset format
    DatasetTensorFlow,
    /// PyTorch dataset format
    DatasetPyTorch,
    /// ONNX dataset format
    DatasetOnnx,
    /// Generic model
    Model,
    /// TensorFlow model
    ModelTensorFlow,
    /// PyTorch model
    ModelPyTorch,
    /// ONNX model
    ModelOnnx,
    /// OpenVINO model
    ModelOpenVino,
    /// Software/code artifact
    Software,
    /// Generator/tool artifact
    Generator,
    /// NumPy array format
    FormatNumpy,
    /// Python pickle format
    FormatPickle,
    /// Protocol buffer format
    FormatProtobuf,
}

/// High-level classification of assets.
#[derive(Debug, Clone, Copy, PartialEq, Eq, Structural)]
pub enum AssetKind {
    /// Machine learning model
    Model,
    /// Training or evaluation dataset
    Dataset,
    /// Software or code
    Software,
    /// Evaluation results or benchmarks
    Evaluation,
}

/// A path segment that names something: neither empty nor `.`.
pub open spec fn is_named_segment(seg: Seq<char>) -> bool {
    seg.len() > 0 && seg != "."@
}

/// The last named segment among `segs`.
pub open spec fn last_named_segment(segs: Seq<Seq<char>>) -> Option<Seq<char>>
    decreases segs.len(),
{
    if segs.len() == 0 {
        None
    } else if is_named_segment(segs.last()) {
        Some(segs.last())
    } else {
        last_named_segment(segs.drop_last())
    }
}

/// The file name of a path, as `Path::file_name` gives it: the last
/// component once empty and `.` components are dropped, unless there is
/// none or it is `..`.
pub open spec fn path_file_name(path: Seq<char>) -> Option<Seq<char>> {
    match last_named_segment(split_fields(path, '/')) {
        Some(seg) => if seg == ".."@ {
            None
        } else {
            Some(seg)
        },
        None => None,
    }
}

/// The index of the last occurrence of `c` in `s`, or -1.
pub open spec fn last_index_of(s: Seq<char>, c: char) -> int
    decreases s.len(),
{
    if s.len() == 0 {
        -1
    } else if s.last() == c {
        s.len() - 1
    } else {
        last_index_of(s.drop_last(), c)
    }
}

/// The extension of a file name: what follows its last `.`, where that
/// dot is not the first character.
pub open spec fn name_extension(name: Seq<char>) -> Option<Seq<char>> {
    let k = last_index_of(name, '.');
    if k <= 0 {
        None
    } else {
        Some(name.skip(k + 1))
    }
}

/// The extension of a path, as `Path::extension` gives it.
pub open spec fn path_extension(path: Seq<char>) -> Option<Seq<char>> {
    match path_file_name(path) {
        Some(name) => name_extension(name),
        None => None,
    }
}

/// The file name of `path`, as `Path::file_name` gives it.
pub fn file_name(path: &str) -> (r: Option<String>)
    ensures
        r matches Some(n) ==> path_file_name(path@) == Some(n@),
        r is None ==> path_file_name(path@) is None,
{
    let mut segs = split_on(path, '/');
    let ghost all = string_views(segs@);
    while segs.len() > 0
        invariant
            all == split_fields(path@, '/'),
            last_named_segment(all) == last_named_segment(string_views(segs@)),
        decreases segs@.len(),
    {
        let ghost before = string_views(segs@);
        let seg = segs.pop().unwrap();
        assert(string_views(segs@) =~= before.drop_last());
        assert(seg@ == before.last());
        if !seg.as_str().is_empty() && !str_eq(seg.as_str(), ".") {
            if str_eq(seg.as_str(), "..") {
                return None;
            }
            return Some(seg);
        }
    }
    None
}

/// The extension of `path`, as `Path::extension` gives it.
pub fn path_extension_of(path: &str) -> (r: Option<String>)
    ensures
        r matches Some(e) ==> path_extension(path@) == Some(e@),
        r is None ==> path_extension(path@) is None,
{
    let name = match file_name(path) {
        Some(n) => n,
        None => return None,
    };
    let cs = crate::text::chars_of(name.as_str());
    let mut k = cs.len();
    assert(cs@.take(cs@.len() as int) =~= cs@);
    while k > 0
        invariant
            k <= cs@.len(),
            cs@ == name@,
            path_file_name(path@) == Some(name@),
            last_index_of(name@, '.') == last_index_of(cs@.take(k as int), '.'),
        decreases k,
    {
        let ghost prefix = cs@.take(k as int);
        assert(prefix.drop_last() =~= cs@.take(k - 1));
        if cs[k - 1] == '.' {
            assert(last_index_of(prefix, '.') == k - 1);
            if k - 1 == 0 {
                return None;
            }
            let rest = crate::text::string_from_chars(&cs.as_slice()[k..cs.len()]);
            assert(rest@ =~= name@.skip(k as int));
            return Some(rest);
        }
        k = k - 1;
    }
    assert(cs@.take(0) =~= Seq::<char>::empty());
    None
}

/// The model type for an extension.
pub open spec fn model_type_for(e: Seq<char>) -> AssetType {
    if e == "pb"@ || e == "savedmodel"@ || e == "tf"@ {
        AssetType::ModelTensorFlow
    } else if e == "pt"@ || e == "pth"@ || e == "pytorch"@ {
        AssetType::ModelPyTorch
    } else if e == "onnx"@ {
        AssetType::ModelOnnx
    } else if e == "bin"@ || e == "xml"@ {
        AssetType::ModelOpenVino
    } else if e == "h5"@ || e == "keras"@ || e == "hdf5"@ {
        AssetType::Model
    } else if e == "npy"@ || e == "npz"@ {
        AssetType::FormatNumpy
    } else if e == "pkl"@ || e == "pickle"@ {
        AssetType::FormatPickle
    } else if e == "protobuf"@ || e == "proto"@ {
        AssetType::FormatProtobuf
    } else {
        AssetType::Model
    }
}

/// The dataset type for an extension.
pub open spec fn dataset_type_for(e: Seq<char>) -> AssetType {
    if e == "csv"@ || e == "tsv"@ || e == "txt"@ {
        AssetType::Dataset
    } else if e == "json"@ || e == "jsonl"@ {
        AssetType::Dataset
    } else if e == "parquet"@ || e == "orc"@ || e == "avro"@ {
        AssetType::Dataset
    } else if e == "tfrecord"@ || e == "tfrec"@ {
        AssetType::DatasetTensorFlow
    } else if e == "pt"@ || e == "pth"@ {
        AssetType::DatasetPyTorch
    } else {
        AssetType::Dataset
    }
}

/// The MIME type for an extension, if the path has one.
pub open spec fn format_for(e: Option<Seq<char>>) -> Seq<char> {
    match e {
        Some(e) => if e == "pb"@ {
            "application/x-protobuf"@
        } else if e == "tf"@ || e == "savedmodel"@ {
            "application/x-tensorflow"@
        } else if e == "pt"@ || e == "pth"@ || e == "pytorch"@ {
            "application/x-pytorch"@
        } else if e == "onnx"@ {
            "application/onnx"@
        } else if e == "bin"@ || e == "xml"@ {
            "application/x-openvino"@
        } else if e == "h5"@ || e == "hdf5"@ {
            "application/x-hdf5"@
        } else if e == "json"@ {
            "application/json"@
        } else if e == "csv"@ {
            "text/csv"@
        } else if e == "txt"@ {
            "text/plain"@
        } else if e == "zip"@ {
            "application/zip"@
        } else {
            "application/octet-stream"@
        },
        None => "application/octet-stream"@,
    }
}

/// Which asset type a model file gets, by its extension (the part of its
/// file name after the last dot): TensorFlow for `pb`, `savedmodel` and
/// `tf`; PyTorch for `pt`, `pth` and `pytorch`; ONNX for `onnx`; OpenVINO
/// for `bin` and `xml`; a plain model for `h5`, `keras` and `hdf5`; NumPy
/// for `npy` and `npz`; pickle for `pkl` and `pickle`; protobuf for
/// `protobuf` and `proto`; and a plain model for every other extension.
pub proof fn model_types_by_extension(e: Seq<char>)
    ensures
        e == "pb"@ || e == "savedmodel"@ || e == "tf"@ ==> model_type_for(e)
            == AssetType::ModelTensorFlow,
        e == "pt"@ || e == "pth"@ || e == "pytorch"@ ==> model_type_for(e)
            == AssetType::ModelPyTorch,
        e == "onnx"@ ==> model_type_for(e) == AssetType::ModelOnnx,
        e == "bin"@ || e == "xml"@ ==> model_type_for(e) == AssetType::ModelOpenVino,
        e == "h5"@ || e == "keras"@ || e == "hdf5"@ ==> model_type_for(e) == AssetType::Model,
        e == "npy"@ || e == "npz"@ ==> model_type_for(e) == AssetType::FormatNumpy,
        e == "pkl"@ || e == "pickle"@ ==> model_type_for(e) == AssetType::FormatPickle,
        e == "protobuf"@ || e == "proto"@ ==> model_type_for(e) == AssetType::FormatProtobuf,
        !(e == "pb"@ || e == "savedmodel"@ || e == "tf"@ || e == "pt"@ || e == "pth"@ ||
            e == "pytorch"@ || e == "onnx"@ || e == "bin"@ || e == "xml"@ || e == "h5"@ ||
            e == "keras"@ || e == "hdf5"@ || e == "npy"@ || e == "npz"@ || e == "pkl"@ ||
            e == "pickle"@ || e == "protobuf"@ || e == "proto"@)
            ==> model_type_for(e) == AssetType::Model,
{
    assert(model_type_for("pb"@) == AssetType::ModelTensorFlow) by {
        reveal_strlit("pb");
        assert("pb"@.len() == 2);
    }
    assert(model_type_for("savedmodel"@) == AssetType::ModelTensorFlow) by {
        reveal_strlit("savedmodel");
        assert("savedmodel"@.len() == 10);
        reveal_strlit("pb");
        assert("pb"@.len() == 2);
    }
    assert(model_type_for("tf"@) == AssetType::ModelTensorFlow) by {
        reveal_strlit("tf");
        assert("tf"@.len() == 2);
        reveal_strlit("pb");
        assert("pb"@.len() == 2);
        assert("tf"@[0] != "pb"@[0]);
        reveal_strlit("savedmodel");
        assert("savedmodel"@.len() == 10);
    }
    assert(model_type_for("pt"@) == AssetType::ModelPyTorch) by {
        reveal_strlit("pt");
        assert("pt"@.len() == 2);
        reveal_strlit("pb");
        assert("pb"@.len() == 2);
        assert("pt"@[1] != "pb"@[1]);
        reveal_strlit("savedmodel");
        assert("savedmodel"@.len() == 10);
        reveal_strlit("tf");
        assert("tf"@.len() == 2);
        assert("pt"@[0] != "tf"@[0]);
    }
    assert(model_type_for("pth"@) == AssetType::ModelPyTorch) by {
        reveal_strlit("pth");
        assert("pth"@.len() == 3);
        reveal_strlit("pb");
        assert("pb"@.len() == 2);
        reveal_strlit("savedmodel");
        assert("savedmodel"@.len() == 10);
        reveal_strlit("tf");
        assert("tf"@.len() == 2);
        reveal_strlit("pt");
        assert("pt"@.len() == 2);
    }
    assert(model_type_for("pytorch"@) == AssetType::ModelPyTorch) by {
        reveal_strlit("pytorch");
        assert("pytorch"@.len() == 7);
        reveal_strlit("pb");
        assert("pb"@.len() == 2);
        reveal_strlit("savedmodel");
        assert("savedmodel"@.len() == 10);
        reveal_strlit("tf");
        assert("tf"@.len() == 2);
        reveal_strlit("pt");
        assert("pt"@.len() == 2);
        reveal_strlit("pth");
        assert("pth"@.len() == 3);
    }
    assert(model_type_for("onnx"@) == AssetType::ModelOnnx) by {
        reveal_strlit("onnx");
        assert("onnx"@.len() == 4);
        reveal_strlit("pb");
        assert("pb"@.len() == 2);
        reveal_strlit("savedmodel");
        assert("savedmodel"@.len() == 10);
        reveal_strlit("tf");
        assert("tf"@.len() == 2);
        reveal_strlit("pt");
        assert("pt"@.len() == 2);
        reveal_strlit("pth");
        assert("pth"@.len() == 3);
        reveal_strlit("pytorch");
        assert("pytorch"@.len() == 7);
    }
    assert(model_type_for("bin"@) == AssetType::ModelOpenVino) by {
        reveal_strlit("bin");
        assert("bin"@.len() == 3);
        reveal_strlit("pb");
        assert("pb"@.len() == 2);
        reveal_strlit("savedmodel");
        assert("savedmodel"@.len() == 10);
        reveal_strlit("tf");
        assert("tf"@.len() == 2);
        reveal_strlit("pt");
        assert("pt"@.len() == 2);
        reveal_strlit("pth");
        assert("pth"@.len() == 3);
        assert("bin"@[0] != "pth"@[0]);
        reveal_strlit("pytorch");
        assert("pytorch"@.len() == 7);
        reveal_strlit("onnx");
        assert("onnx"@.len() == 4);
    }
    assert(model_type_for("xml"@) == AssetType::ModelOpenVino) by {
        reveal_strlit("xml");
        assert("xml"@.len() == 3);
        reveal_strlit("pb");
        assert("pb"@.len() == 2);
        reveal_strlit("savedmodel");
        assert("savedmodel"@.len() == 10);
        reveal_strlit("tf");
        assert("tf"@.len() == 2);
        reveal_strlit("pt");
        assert("pt"@.len() == 2);
        reveal_strlit("pth");
        assert("pth"@.len() == 3);
        assert("xml"@[0] != "pth"@[0]);
        reveal_strlit("pytorch");
        assert("pytorch"@.len() == 7);
        reveal_strlit("onnx");
        assert("onnx"@.len() == 4);
        reveal_strlit("bin");
        assert("bin"@.len() == 3);
        assert("xml"@[0] != "bin"@[0]);
    }
    assert(model_type_for("h5"@) == AssetType::Model) by {
        reveal_strlit("h5");
        assert("h5"@.len() == 2);
        reveal_strlit("pb");
        assert("pb"@.len() == 2);
        assert("h5"@[0] != "pb"@[0]);
        reveal_strlit("savedmodel");
        assert("savedmodel"@.len() == 10);
        reveal_strlit("tf");
        assert("tf"@.len() == 2);
        assert("h5"@[0] != "tf"@[0]);
        reveal_strlit("pt");
        assert("pt"@.len() == 2);
        assert("h5"@[0] != "pt"@[0]);
        reveal_strlit("pth");
        assert("pth"@.len() == 3);
        reveal_strlit("pytorch");
        assert("pytorch"@.len() == 7);
        reveal_strlit("onnx");
        assert("onnx"@.len() == 4);
        reveal_strlit("bin");
        assert("bin"@.len() == 3);
        reveal_strlit("xml");
        assert("xml"@.len() == 3);
    }
    assert(model_type_for("keras"@) == AssetType::Model) by {
        reveal_strlit("keras");
        assert("keras"@.len() == 5);
        reveal_strlit("pb");
        assert("pb"@.len() == 2);
        reveal_strlit("savedmodel");
        assert("savedmodel"@.len() == 10);
        reveal_strlit("tf");
        assert("tf"@.len() == 2);
        reveal_strlit("pt");
        assert("pt"@.len() == 2);
        reveal_strlit("pth");
        assert("pth"@.len() == 3);
        reveal_strlit("pytorch");
        assert("pytorch"@.len() == 7);
        reveal_strlit("onnx");
        assert("onnx"@.len() == 4);
        reveal_strlit("bin");
        assert("bin"@.len() == 3);
        reveal_strlit("xml");
        assert("xml"@.len() == 3);
        reveal_strlit("h5");
        assert("h5"@.len() == 2);
    }
    assert(model_type_for("hdf5"@) == AssetType::Model) by {
        reveal_strlit("hdf5");
        assert("hdf5"@.len() == 4);
        reveal_strlit("pb");
        assert("pb"@.len() == 2);
        reveal_strlit("savedmodel");
        assert("savedmodel"@.len() == 10);
        reveal_strlit("tf");
        assert("tf"@.len() == 2);
        reveal_strlit("pt");
        assert("pt"@.len() == 2);
        reveal_strlit("pth");
        assert("pth"@.len() == 3);
        reveal_strlit("pytorch");
        assert("pytorch"@.len() == 7);
        reveal_strlit("onnx");
        assert("onnx"@.len() == 4);
        assert("hdf5"@[0] != "onnx"@[0]);
        reveal_strlit("bin");
        assert("bin"@.len() == 3);
        reveal_strlit("xml");
        assert("xml"@.len() == 3);
        reveal_strlit("h5");
        assert("h5"@.len() == 2);
        reveal_strlit("keras");
        assert("keras"@.len() == 5);
    }
    assert(model_type_for("npy"@) == AssetType::FormatNumpy) by {
        reveal_strlit("npy");
        assert("npy"@.len() == 3);
        reveal_strlit("pb");
        assert("pb"@.len() == 2);
        reveal_strlit("savedmodel");
        assert("savedmodel"@.len() == 10);
        reveal_strlit("tf");
        assert("tf"@.len() == 2);
        reveal_strlit("pt");
        assert("pt"@.len() == 2);
        reveal_strlit("pth");
        assert("pth"@.len() == 3);
        assert("npy"@[0] != "pth"@[0]);
        reveal_strlit("pytorch");
        assert("pytorch"@.len() == 7);
        reveal_strlit("onnx");
        assert("onnx"@.len() == 4);
        reveal_strlit("bin");
        assert("bin"@.len() == 3);
        assert("npy"@[0] != "bin"@[0]);
        reveal_strlit("xml");
        assert("xml"@.len() == 3);
        assert("npy"@[0] != "xml"@[0]);
        reveal_strlit("h5");
        assert("h5"@.len() == 2);
        reveal_strlit("keras");
        assert("keras"@.len() == 5);
        reveal_strlit("hdf5");
        assert("hdf5"@.len() == 4);
    }
    assert(model_type_for("npz"@) == AssetType::FormatNumpy) by {
        reveal_strlit("npz");
        assert("npz"@.len() == 3);
        reveal_strlit("pb");
        assert("pb"@.len() == 2);
        reveal_strlit("savedmodel");
        assert("savedmodel"@.len() == 10);
        reveal_strlit("tf");
        assert("tf"@.len() == 2);
        reveal_strlit("pt");
        assert("pt"@.len() == 2);
        reveal_strlit("pth");
        assert("pth"@.len() == 3);
        assert("npz"@[0] != "pth"@[0]);
        reveal_strlit("pytorch");
        assert("pytorch"@.len() == 7);
        reveal_strlit("onnx");
        assert("onnx"@.len() == 4);
        reveal_strlit("bin");
        assert("bin"@.len() == 3);
        assert("npz"@[0] != "bin"@[0]);
        reveal_strlit("xml");
        assert("xml"@.len() == 3);
        assert("npz"@[0] != "xml"@[0]);
        reveal_strlit("h5");
        assert("h5"@.len() == 2);
        reveal_strlit("keras");
        assert("keras"@.len() == 5);
        reveal_strlit("hdf5");
        assert("hdf5"@.len() == 4);
        reveal_strlit("npy");
        assert("npy"@.len() == 3);
        assert("npz"@[2] != "npy"@[2]);
    }
    assert(model_type_for("pkl"@) == AssetType::FormatPickle) by {
        reveal_strlit("pkl");
        assert("pkl"@.len() == 3);
        reveal_strlit("pb");
        assert("pb"@.len() == 2);
        reveal_strlit("savedmodel");
        assert("savedmodel"@.len() == 10);
        reveal_strlit("tf");
        assert("tf"@.len() == 2);
        reveal_strlit("pt");
        assert("pt"@.len() == 2);
        reveal_strlit("pth");
        assert("pth"@.len() == 3);
        assert("pkl"@[1] != "pth"@[1]);
        reveal_strlit("pytorch");
        assert("pytorch"@.len() == 7);
        reveal_strlit("onnx");
        assert("onnx"@.len() == 4);
        reveal_strlit("bin");
        assert("bin"@.len() == 3);
        assert("pkl"@[0] != "bin"@[0]);
        reveal_strlit("xml");
        assert("xml"@.len() == 3);
        assert("pkl"@[0] != "xml"@[0]);
        reveal_strlit("h5");
        assert("h5"@.len() == 2);
        reveal_strlit("keras");
        assert("keras"@.len() == 5);
        reveal_strlit("hdf5");
        assert("hdf5"@.len() == 4);
        reveal_strlit("npy");
        assert("npy"@.len() == 3);
        assert("pkl"@[0] != "npy"@[0]);
        reveal_strlit("npz");
        assert("npz"@.len() == 3);
        assert("pkl"@[0] != "npz"@[0]);
    }
    assert(model_type_for("pickle"@) == AssetType::FormatPickle) by {
        reveal_strlit("pickle");
        assert("pickle"@.len() == 6);
        reveal_strlit("pb");
        assert("pb"@.len() == 2);
        reveal_strlit("savedmodel");
        assert("savedmodel"@.len() == 10);
        reveal_strlit("tf");
        assert("tf"@.len() == 2);
        reveal_strlit("pt");
        assert("pt"@.len() == 2);
        reveal_strlit("pth");
        assert("pth"@.len() == 3);
        reveal_strlit("pytorch");
        assert("pytorch"@.len() == 7);
        reveal_strlit("onnx");
        assert("onnx"@.len() == 4);
        reveal_strlit("bin");
        assert("bin"@.len() == 3);
        reveal_strlit("xml");
        assert("xml"@.len() == 3);
        reveal_strlit("h5");
        assert("h5"@.len() == 2);
        reveal_strlit("keras");
        assert("keras"@.len() == 5);
        reveal_strlit("hdf5");
        assert("hdf5"@.len() == 4);
        reveal_strlit("npy");
        assert("npy"@.len() == 3);
        reveal_strlit("npz");
        assert("npz"@.len() == 3);
        reveal_strlit("pkl");
        assert("pkl"@.len() == 3);
    }
    assert(model_type_for("protobuf"@) == AssetType::FormatProtobuf) by {
        reveal_strlit("protobuf");
        assert("protobuf"@.len() == 8);
        reveal_strlit("pb");
        assert("pb"@.len() == 2);
        reveal_strlit("savedmodel");
        assert("savedmodel"@.len() == 10);
        reveal_strlit("tf");
        assert("tf"@.len() == 2);
        reveal_strlit("pt");
        assert("pt"@.len() == 2);
        reveal_strlit("pth");
        assert("pth"@.len() == 3);
        reveal_strlit("pytorch");
        assert("pytorch"@.len() == 7);
        reveal_strlit("onnx");
        assert("onnx"@.len() == 4);
        reveal_strlit("bin");
        assert("bin"@.len() == 3);
        reveal_strlit("xml");
        assert("xml"@.len() == 3);
        reveal_strlit("h5");
        assert("h5"@.len() == 2);
        reveal_strlit("keras");
        assert("keras"@.len() == 5);
        reveal_strlit("hdf5");
        assert("hdf5"@.len() == 4);
        reveal_strlit("npy");
        assert("npy"@.len() == 3);
        reveal_strlit("npz");
        assert("npz"@.len() == 3);
        reveal_strlit("pkl");
        assert("pkl"@.len() == 3);
        reveal_strlit("pickle");
        assert("pickle"@.len() == 6);
    }
    assert(model_type_for("proto"@) == AssetType::FormatProtobuf) by {
        reveal_strlit("proto");
        assert("proto"@.len() == 5);
        reveal_strlit("pb");
        assert("pb"@.len() == 2);
        reveal_strlit("savedmodel");
        assert("savedmodel"@.len() == 10);
        reveal_strlit("tf");
        assert("tf"@.len() == 2);
        reveal_strlit("pt");
        assert("pt"@.len() == 2);
        reveal_strlit("pth");
        assert("pth"@.len() == 3);
        reveal_strlit("pytorch");
        assert("pytorch"@.len() == 7);
        reveal_strlit("onnx");
        assert("onnx"@.len() == 4);
        reveal_strlit("bin");
        assert("bin"@.len() == 3);
        reveal_strlit("xml");
        assert("xml"@.len() == 3);
        reveal_strlit("h5");
        assert("h5"@.len() == 2);
        reveal_strlit("keras");
        assert("keras"@.len() == 5);
        assert("proto"@[0] != "keras"@[0]);
        reveal_strlit("hdf5");
        assert("hdf5"@.len() == 4);
        reveal_strlit("npy");
        assert("npy"@.len() == 3);
        reveal_strlit("npz");
        assert("npz"@.len() == 3);
        reveal_strlit("pkl");
        assert("pkl"@.len() == 3);
        reveal_strlit("pickle");
        assert("pickle"@.len() == 6);
        reveal_strlit("protobuf");
        assert("protobuf"@.len() == 8);
    }
}

/// Which asset type a dataset file gets, by its extension: TensorFlow for
/// `tfrecord` and `tfrec`; PyTorch for `pt` and `pth`; a plain dataset for
/// `csv`, `tsv`, `txt`, `json`, `jsonl`, `parquet`, `orc`, `avro`, `npy`,
/// `npz`, `pkl`, `pickle` and every other extension.
pub proof fn dataset_types_by_extension(e: Seq<char>)
    ensures
        e == "tfrecord"@ || e == "tfrec"@ ==> dataset_type_for(e) == AssetType::DatasetTensorFlow,
        e == "pt"@ || e == "pth"@ ==> dataset_type_for(e) == AssetType::DatasetPyTorch,
        !(e == "tfrecord"@ || e == "tfrec"@ || e == "pt"@ || e == "pth"@) ==> dataset_type_for(e)
            == AssetType::Dataset,
{
    assert(dataset_type_for("csv"@) == AssetType::Dataset) by {
        reveal_strlit("csv");
        assert("csv"@.len() == 3);
    }
    assert(dataset_type_for("tsv"@) == AssetType::Dataset) by {
        reveal_strlit("tsv");
        assert("tsv"@.len() == 3);
        reveal_strlit("csv");
        assert("csv"@.len() == 3);
        assert("tsv"@[0] != "csv"@[0]);
    }
    assert(dataset_type_for("txt"@) == AssetType::Dataset) by {
        reveal_strlit("txt");
        assert("txt"@.len() == 3);
        reveal_strlit("csv");
        assert("csv"@.len() == 3);
        assert("txt"@[0] != "csv"@[0]);
        reveal_strlit("tsv");
        assert("tsv"@.len() == 3);
        assert("txt"@[1] != "tsv"@[1]);
    }
    assert(dataset_type_for("json"@) == AssetType::Dataset) by {
        reveal_strlit("json");
        assert("json"@.len() == 4);
        reveal_strlit("csv");
        assert("csv"@.len() == 3);
        reveal_strlit("tsv");
        assert("tsv"@.len() == 3);
        reveal_strlit("txt");
        assert("txt"@.len() == 3);
    }
    assert(dataset_type_for("jsonl"@) == AssetType::Dataset) by {
        reveal_strlit("jsonl");
        assert("jsonl"@.len() == 5);
        reveal_strlit("csv");
        assert("csv"@.len() == 3);
        reveal_strlit("tsv");
        assert("tsv"@.len() == 3);
        reveal_strlit("txt");
        assert("txt"@.len() == 3);
        reveal_strlit("json");
        assert("json"@.len() == 4);
    }
    assert(dataset_type_for("parquet"@) == AssetType::Dataset) by {
        reveal_strlit("parquet");
        assert("parquet"@.len() == 7);
        reveal_strlit("csv");
        assert("csv"@.len() == 3);
        reveal_strlit("tsv");
        assert("tsv"@.len() == 3);
        reveal_strlit("txt");
        assert("txt"@.len() == 3);
        reveal_strlit("json");
        assert("json"@.len() == 4);
        reveal_strlit("jsonl");
        assert("jsonl"@.len() == 5);
    }
    assert(dataset_type_for("orc"@) == AssetType::Dataset) by {
        reveal_strlit("orc");
        assert("orc"@.len() == 3);
        reveal_strlit("csv");
        assert("csv"@.len() == 3);
        assert("orc"@[0] != "csv"@[0]);
        reveal_strlit("tsv");
        assert("tsv"@.len() == 3);
        assert("orc"@[0] != "tsv"@[0]);
        reveal_strlit("txt");
        assert("txt"@.len() == 3);
        assert("orc"@[0] != "txt"@[0]);
        reveal_strlit("json");
        assert("json"@.len() == 4);
        reveal_strlit("jsonl");
        assert("jsonl"@.len() == 5);
        reveal_strlit("parquet");
        assert("parquet"@.len() == 7);
    }
    assert(dataset_type_for("avro"@) == AssetType::Dataset) by {
        reveal_strlit("avro");
        assert("avro"@.len() == 4);
        reveal_strlit("csv");
        assert("csv"@.len() == 3);
        reveal_strlit("tsv");
        assert("tsv"@.len() == 3);
        reveal_strlit("txt");
        assert("txt"@.len() == 3);
        reveal_strlit("json");
        assert("json"@.len() == 4);
        assert("avro"@[0] != "json"@[0]);
        reveal_strlit("jsonl");
        assert("jsonl"@.len() == 5);
        reveal_strlit("parquet");
        assert("parquet"@.len() == 7);
        reveal_strlit("orc");
        assert("orc"@.len() == 3);
    }
    assert(dataset_type_for("tfrecord"@) == AssetType::DatasetTensorFlow) by {
        reveal_strlit("tfrecord");
        assert("tfrecord"@.len() == 8);
        reveal_strlit("csv");
        assert("csv"@.len() == 3);
        reveal_strlit("tsv");
        assert("tsv"@.len() == 3);
        reveal_strlit("txt");
        assert("txt"@.len() == 3);
        reveal_strlit("json");
        assert("json"@.len() == 4);
        reveal_strlit("jsonl");
        assert("jsonl"@.len() == 5);
        reveal_strlit("parquet");
        assert("parquet"@.len() == 7);
        reveal_strlit("orc");
        assert("orc"@.len() == 3);
        reveal_strlit("avro");
        assert("avro"@.len() == 4);
    }
    assert(dataset_type_for("tfrec"@) == AssetType::DatasetTensorFlow) by {
        reveal_strlit("tfrec");
        assert("tfrec"@.len() == 5);
        reveal_strlit("csv");
        assert("csv"@.len() == 3);
        reveal_strlit("tsv");
        assert("tsv"@.len() == 3);
        reveal_strlit("txt");
        assert("txt"@.len() == 3);
        reveal_strlit("json");
        assert("json"@.len() == 4);
        reveal_strlit("jsonl");
        assert("jsonl"@.len() == 5);
        assert("tfrec"@[0] != "jsonl"@[0]);
        reveal_strlit("parquet");
        assert("parquet"@.len() == 7);
        reveal_strlit("orc");
        assert("orc"@.len() == 3);
        reveal_strlit("avro");
        assert("avro"@.len() == 4);
        reveal_strlit("tfrecord");
        assert("tfrecord"@.len() == 8);
    }
    assert(dataset_type_for("pt"@) == AssetType::DatasetPyTorch) by {
        reveal_strlit("pt");
        assert("pt"@.len() == 2);
        reveal_strlit("csv");
        assert("csv"@.len() == 3);
        reveal_strlit("tsv");
        assert("tsv"@.len() == 3);
        reveal_strlit("txt");
        assert("txt"@.len() == 3);
        reveal_strlit("json");
        assert("json"@.len() == 4);
        reveal_strlit("jsonl");
        assert("jsonl"@.len() == 5);
        reveal_strlit("parquet");
        assert("parquet"@.len() == 7);
        reveal_strlit("orc");
        assert("orc"@.len() == 3);
        reveal_strlit("avro");
        assert("avro"@.len() == 4);
        reveal_strlit("tfrecord");
        assert("tfrecord"@.len() == 8);
        reveal_strlit("tfrec");
        assert("tfrec"@.len() == 5);
    }
    assert(dataset_type_for("pth"@) == AssetType::DatasetPyTorch) by {
        reveal_strlit("pth");
        assert("pth"@.len() == 3);
        reveal_strlit("csv");
        assert("csv"@.len() == 3);
        assert("pth"@[0] != "csv"@[0]);
        reveal_strlit("tsv");
        assert("tsv"@.len() == 3);
        assert("pth"@[0] != "tsv"@[0]);
        reveal_strlit("txt");
        assert("txt"@.len() == 3);
        assert("pth"@[0] != "txt"@[0]);
        reveal_strlit("json");
        assert("json"@.len() == 4);
        reveal_strlit("jsonl");
        assert("jsonl"@.len() == 5);
        reveal_strlit("parquet");
        assert("parquet"@.len() == 7);
        reveal_strlit("orc");
        assert("orc"@.len() == 3);
        assert("pth"@[0] != "orc"@[0]);
        reveal_strlit("avro");
        assert("avro"@.len() == 4);
        reveal_strlit("tfrecord");
        assert("tfrecord"@.len() == 8);
        reveal_strlit("tfrec");
        assert("tfrec"@.len() == 5);
        reveal_strlit("pt");
        assert("pt"@.len() == 2);
    }
}

/// Which MIME type a file gets, by its extension: `application/x-protobuf`
/// for `pb`; `application/x-tensorflow` for `tf` and `savedmodel`;
/// `application/x-pytorch` for `pt`, `pth` and `pytorch`;
/// `application/onnx` for `onnx`; `application/x-openvino` for `bin` and
/// `xml`; `application/x-hdf5` for `h5` and `hdf5`; `application/json` for
/// `json`; `text/csv` for `csv`; `text/plain` for `txt`; `application/zip`
/// for `zip`; and `application/octet-stream` for every other extension and
/// for a path without one.
pub proof fn formats_by_extension(e: Seq<char>)
    ensures
        format_for(Some("pb"@)) == "application/x-protobuf"@,
        e == "tf"@ || e == "savedmodel"@ ==> format_for(Some(e)) == "application/x-tensorflow"@,
        e == "pt"@ || e == "pth"@ || e == "pytorch"@ ==> format_for(Some(e))
            == "application/x-pytorch"@,
        format_for(Some("onnx"@)) == "application/onnx"@,
        e == "bin"@ || e == "xml"@ ==> format_for(Some(e)) == "application/x-openvino"@,
        e == "h5"@ || e == "hdf5"@ ==> format_for(Some(e)) == "application/x-hdf5"@,
        format_for(Some("json"@)) == "application/json"@,
        format_for(Some("csv"@)) == "text/csv"@,
        format_for(Some("txt"@)) == "text/plain"@,
        format_for(Some("zip"@)) == "application/zip"@,
        !(e == "pb"@ || e == "tf"@ || e == "savedmodel"@ || e == "pt"@ || e == "pth"@ ||
            e == "pytorch"@ || e == "onnx"@ || e == "bin"@ || e == "xml"@ || e == "h5"@ ||
            e == "hdf5"@ || e == "json"@ || e == "csv"@ || e == "txt"@ || e == "zip"@)
            ==> format_for(Some(e)) == "application/octet-stream"@,
        format_for(None) == "application/octet-stream"@,
{
    assert(format_for(Some("pb"@)) == "application/x-protobuf"@) by {
        reveal_strlit("pb");
        assert("pb"@.len() == 2);
        reveal_strlit("application/x-protobuf");
    }
    assert(format_for(Some("tf"@)) == "application/x-tensorflow"@) by {
        reveal_strlit("tf");
        assert("tf"@.len() == 2);
        reveal_strlit("pb");
        assert("pb"@.len() == 2);
        assert("tf"@[0] != "pb"@[0]);
        reveal_strlit("application/x-tensorflow");
    }
    assert(format_for(Some("savedmodel"@)) == "application/x-tensorflow"@) by {
        reveal_strlit("savedmodel");
        assert("savedmodel"@.len() == 10);
        reveal_strlit("pb");
        assert("pb"@.len() == 2);
        reveal_strlit("tf");
        assert("tf"@.len() == 2);
        reveal_strlit("application/x-tensorflow");
    }
    assert(format_for(Some("pt"@)) == "application/x-pytorch"@) by {
        reveal_strlit("pt");
        assert("pt"@.len() == 2);
        reveal_strlit("pb");
        assert("pb"@.len() == 2);
        assert("pt"@[1] != "pb"@[1]);
        reveal_strlit("tf");
        assert("tf"@.len() == 2);
        assert("pt"@[0] != "tf"@[0]);
        reveal_strlit("savedmodel");
        assert("savedmodel"@.len() == 10);
        reveal_strlit("application/x-pytorch");
    }
    assert(format_for(Some("pth"@)) == "application/x-pytorch"@) by {
        reveal_strlit("pth");
        assert("pth"@.len() == 3);
        reveal_strlit("pb");
        assert("pb"@.len() == 2);
        reveal_strlit("tf");
        assert("tf"@.len() == 2);
        reveal_strlit("savedmodel");
        assert("savedmodel"@.len() == 10);
        reveal_strlit("pt");
        assert("pt"@.len() == 2);
        reveal_strlit("application/x-pytorch");
    }
    assert(format_for(Some("pytorch"@)) == "application/x-pytorch"@) by {
        reveal_strlit("pytorch");
        assert("pytorch"@.len() == 7);
        reveal_strlit("pb");
        assert("pb"@.len() == 2);
        reveal_strlit("tf");
        assert("tf"@.len() == 2);
        reveal_strlit("savedmodel");
        assert("savedmodel"@.len() == 10);
        reveal_strlit("pt");
        assert("pt"@.len() == 2);
        reveal_strlit("pth");
        assert("pth"@.len() == 3);
        reveal_strlit("application/x-pytorch");
    }
    assert(format_for(Some("onnx"@)) == "application/onnx"@) by {
        reveal_strlit("onnx");
        assert("onnx"@.len() == 4);
        reveal_strlit("pb");
        assert("pb"@.len() == 2);
        reveal_strlit("tf");
        assert("tf"@.len() == 2);
        reveal_strlit("savedmodel");
        assert("savedmodel"@.len() == 10);
        reveal_strlit("pt");
        assert("pt"@.len() == 2);
        reveal_strlit("pth");
        assert("pth"@.len() == 3);
        reveal_strlit("pytorch");
        assert("pytorch"@.len() == 7);
        reveal_strlit("application/onnx");
    }
    assert(format_for(Some("bin"@)) == "application/x-openvino"@) by {
        reveal_strlit("bin");
        assert("bin"@.len() == 3);
        reveal_strlit("pb");
        assert("pb"@.len() == 2);
        reveal_strlit("tf");
        assert("tf"@.len() == 2);
        reveal_strlit("savedmodel");
        assert("savedmodel"@.len() == 10);
        reveal_strlit("pt");
        assert("pt"@.len() == 2);
        reveal_strlit("pth");
        assert("pth"@.len() == 3);
        assert("bin"@[0] != "pth"@[0]);
        reveal_strlit("pytorch");
        assert("pytorch"@.len() == 7);
        reveal_strlit("onnx");
        assert("onnx"@.len() == 4);
        reveal_strlit("application/x-openvino");
    }
    assert(format_for(Some("xml"@)) == "application/x-openvino"@) by {
        reveal_strlit("xml");
        assert("xml"@.len() == 3);
        reveal_strlit("pb");
        assert("pb"@.len() == 2);
        reveal_strlit("tf");
        assert("tf"@.len() == 2);
        reveal_strlit("savedmodel");
        assert("savedmodel"@.len() == 10);
        reveal_strlit("pt");
        assert("pt"@.len() == 2);
        reveal_strlit("pth");
        assert("pth"@.len() == 3);
        assert("xml"@[0] != "pth"@[0]);
        reveal_strlit("pytorch");
        assert("pytorch"@.len() == 7);
        reveal_strlit("onnx");
        assert("onnx"@.len() == 4);
        reveal_strlit("bin");
        assert("bin"@.len() == 3);
        assert("xml"@[0] != "bin"@[0]);
        reveal_strlit("application/x-openvino");
    }
    assert(format_for(Some("h5"@)) == "application/x-hdf5"@) by {
        reveal_strlit("h5");
        assert("h5"@.len() == 2);
        reveal_strlit("pb");
        assert("pb"@.len() == 2);
        assert("h5"@[0] != "pb"@[0]);
        reveal_strlit("tf");
        assert("tf"@.len() == 2);
        assert("h5"@[0] != "tf"@[0]);
        reveal_strlit("savedmodel");
        assert("savedmodel"@.len() == 10);
        reveal_strlit("pt");
        assert("pt"@.len() == 2);
        assert("h5"@[0] != "pt"@[0]);
        reveal_strlit("pth");
        assert("pth"@.len() == 3);
        reveal_strlit("pytorch");
        assert("pytorch"@.len() == 7);
        reveal_strlit("onnx");
        assert("onnx"@.len() == 4);
        reveal_strlit("bin");
        assert("bin"@.len() == 3);
        reveal_strlit("xml");
        assert("xml"@.len() == 3);
        reveal_strlit("application/x-hdf5");
    }
    assert(format_for(Some("hdf5"@)) == "application/x-hdf5"@) by {
        reveal_strlit("hdf5");
        assert("hdf5"@.len() == 4);
        reveal_strlit("pb");
        assert("pb"@.len() == 2);
        reveal_strlit("tf");
        assert("tf"@.len() == 2);
        reveal_strlit("savedmodel");
        assert("savedmodel"@.len() == 10);
        reveal_strlit("pt");
        assert("pt"@.len() == 2);
        reveal_strlit("pth");
        assert("pth"@.len() == 3);
        reveal_strlit("pytorch");
        assert("pytorch"@.len() == 7);
        reveal_strlit("onnx");
        assert("onnx"@.len() == 4);
        assert("hdf5"@[0] != "onnx"@[0]);
        reveal_strlit("bin");
        assert("bin"@.len() == 3);
        reveal_strlit("xml");
        assert("xml"@.len() == 3);
        reveal_strlit("h5");
        assert("h5"@.len() == 2);
        reveal_strlit("application/x-hdf5");
    }
    assert(format_for(Some("json"@)) == "application/json"@) by {
        reveal_strlit("json");
        assert("json"@.len() == 4);
        reveal_strlit("pb");
        assert("pb"@.len() == 2);
        reveal_strlit("tf");
        assert("tf"@.len() == 2);
        reveal_strlit("savedmodel");
        assert("savedmodel"@.len() == 10);
        reveal_strlit("pt");
        assert("pt"@.len() == 2);
        reveal_strlit("pth");
        assert("pth"@.len() == 3);
        reveal_strlit("pytorch");
        assert("pytorch"@.len() == 7);
        reveal_strlit("onnx");
        assert("onnx"@.len() == 4);
        assert("json"@[0] != "onnx"@[0]);
        reveal_strlit("bin");
        assert("bin"@.len() == 3);
        reveal_strlit("xml");
        assert("xml"@.len() == 3);
        reveal_strlit("h5");
        assert("h5"@.len() == 2);
        reveal_strlit("hdf5");
        assert("hdf5"@.len() == 4);
        assert("json"@[0] != "hdf5"@[0]);
        reveal_strlit("application/json");
    }
    assert(format_for(Some("csv"@)) == "text/csv"@) by {
        reveal_strlit("csv");
        assert("csv"@.len() == 3);
        reveal_strlit("pb");
        assert("pb"@.len() == 2);
        reveal_strlit("tf");
        assert("tf"@.len() == 2);
        reveal_strlit("savedmodel");
        assert("savedmodel"@.len() == 10);
        reveal_strlit("pt");
        assert("pt"@.len() == 2);
        reveal_strlit("pth");
        assert("pth"@.len() == 3);
        assert("csv"@[0] != "pth"@[0]);
        reveal_strlit("pytorch");
        assert("pytorch"@.len() == 7);
        reveal_strlit("onnx");
        assert("onnx"@.len() == 4);
        reveal_strlit("bin");
        assert("bin"@.len() == 3);
        assert("csv"@[0] != "bin"@[0]);
        reveal_strlit("xml");
        assert("xml"@.len() == 3);
        assert("csv"@[0] != "xml"@[0]);
        reveal_strlit("h5");
        assert("h5"@.len() == 2);
        reveal_strlit("hdf5");
        assert("hdf5"@.len() == 4);
        reveal_strlit("json");
        assert("json"@.len() == 4);
        reveal_strlit("text/csv");
    }
    assert(format_for(Some("txt"@)) == "text/plain"@) by {
        reveal_strlit("txt");
        assert("txt"@.len() == 3);
        reveal_strlit("pb");
        assert("pb"@.len() == 2);
        reveal_strlit("tf");
        assert("tf"@.len() == 2);
        reveal_strlit("savedmodel");
        assert("savedmodel"@.len() == 10);
        reveal_strlit("pt");
        assert("pt"@.len() == 2);
        reveal_strlit("pth");
        assert("pth"@.len() == 3);
        assert("txt"@[0] != "pth"@[0]);
        reveal_strlit("pytorch");
        assert("pytorch"@.len() == 7);
        reveal_strlit("onnx");
        assert("onnx"@.len() == 4);
        reveal_strlit("bin");
        assert("bin"@.len() == 3);
        assert("txt"@[0] != "bin"@[0]);
        reveal_strlit("xml");
        assert("xml"@.len() == 3);
        assert("txt"@[0] != "xml"@[0]);
        reveal_strlit("h5");
        assert("h5"@.len() == 2);
        reveal_strlit("hdf5");
        assert("hdf5"@.len() == 4);
        reveal_strlit("json");
        assert("json"@.len() == 4);
        reveal_strlit("csv");
        assert("csv"@.len() == 3);
        assert("txt"@[0] != "csv"@[0]);
        reveal_strlit("text/plain");
    }
    assert(format_for(Some("zip"@)) == "application/zip"@) by {
        reveal_strlit("zip");
        assert("zip"@.len() == 3);
        reveal_strlit("pb");
        assert("pb"@.len() == 2);
        reveal_strlit("tf");
        assert("tf"@.len() == 2);
        reveal_strlit("savedmodel");
        assert("savedmodel"@.len() == 10);
        reveal_strlit("pt");
        assert("pt"@.len() == 2);
        reveal_strlit("pth");
        assert("pth"@.len() == 3);
        assert("zip"@[0] != "pth"@[0]);
        reveal_strlit("pytorch");
        assert("pytorch"@.len() == 7);
        reveal_strlit("onnx");
        assert("onnx"@.len() == 4);
        reveal_strlit("bin");
        assert("bin"@.len() == 3);
        assert("zip"@[0] != "bin"@[0]);
        reveal_strlit("xml");
        assert("xml"@.len() == 3);
        assert("zip"@[0] != "xml"@[0]);
        reveal_strlit("h5");
        assert("h5"@.len() == 2);
        reveal_strlit("hdf5");
        assert("hdf5"@.len() == 4);
        reveal_strlit("json");
        assert("json"@.len() == 4);
        reveal_strlit("csv");
        assert("csv"@.len() == 3);
        assert("zip"@[0] != "csv"@[0]);
        reveal_strlit("txt");
        assert("txt"@.len() == 3);
        assert("zip"@[0] != "txt"@[0]);
        reveal_strlit("application/zip");
    }
}

/// The message for a path without an extension.
pub open spec fn no_extension_message() -> Seq<char> {
    "File has no extension"@
}

/// The asset type of `path` for a given kind: by extension for models and
/// datasets, `Software` for software and `Dataset` for evaluations.
pub open spec fn asset_type_for(path: Seq<char>, kind: AssetKind) -> Option<AssetType> {
    match kind {
        AssetKind::Model => match path_extension(path) {
            Some(e) => Some(model_type_for(e)),
            None => None,
        },
        AssetKind::Dataset => match path_extension(path) {
            Some(e) => Some(dataset_type_for(e)),
            None => None,
        },
        AssetKind::Software => Some(AssetType::Software),
        AssetKind::Evaluation => Some(AssetType::Dataset),
    }
}

/// Determines the asset type from the file path and the kind of asset.
/// Fails for models and datasets whose path has no extension.
pub fn determine_asset_type(path: &str, kind: AssetKind) -> (r: Result<AssetType>)
    ensures
        asset_type_for(path@, kind) matches Some(t) ==> r matches Ok(u) && u == t,
        asset_type_for(path@, kind) is None ==> (r matches Err(Error::InvalidFormat(m)) && m@
            == no_extension_message()),
{
    match kind {
        AssetKind::Model => determine_model_type(path),
        AssetKind::Dataset => determine_dataset_type(path),
        AssetKind::Software => Ok(AssetType::Software),
        AssetKind::Evaluation => Ok(AssetType::Dataset),
    }
}

/// Determines the model type from the extension of `path`. Fails when the
/// path has no extension.
pub fn determine_model_type(path: &str) -> (r: Result<AssetType>)
    ensures
        path_extension(path@) matches Some(e) ==> r matches Ok(t) && t == model_type_for(e),
        path_extension(path@) is None ==> (r matches Err(Error::InvalidFormat(m)) && m@
            == no_extension_message()),
{
    let ext = match path_extension_of(path) {
        Some(e) => e,
        None => return Err(Error::InvalidFormat(String::from_str("File has no extension"))),
    };
    let e = ext.as_str();
    let t = if str_eq(e, "pb") || str_eq(e, "savedmodel") || str_eq(e, "tf") {
        AssetType::ModelTensorFlow
    } else if str_eq(e, "pt") || str_eq(e, "pth") || str_eq(e, "pytorch") {
        AssetType::ModelPyTorch
    } else if str_eq(e, "onnx") {
        AssetType::ModelOnnx
    } else if str_eq(e, "bin") || str_eq(e, "xml") {
        AssetType::ModelOpenVino
    } else if str_eq(e, "h5") || str_eq(e, "keras") || str_eq(e, "hdf5") {
        AssetType::Model
    } else if str_eq(e, "npy") || str_eq(e, "npz") {
        AssetType::FormatNumpy
    } else if str_eq(e, "pkl") || str_eq(e, "pickle") {
        AssetType::FormatPickle
    } else if str_eq(e, "protobuf") || str_eq(e, "proto") {
        AssetType::FormatProtobuf
    } else {
        AssetType::Model
    };
    Ok(t)
}

/// Determines the dataset type from the extension of `path`. Fails when
/// the path has no extension.
pub fn determine_dataset_type(path: &str) -> (r: Result<AssetType>)
    ensures
        path_extension(path@) matches Some(e) ==> r matches Ok(t) && t == dataset_type_for(e),
        path_extension(path@) is None ==> (r matches Err(Error::InvalidFormat(m)) && m@
            == no_extension_message()),
{
    let ext = match path_extension_of(path) {
        Some(e) => e,
        None => return Err(Error::InvalidFormat(String::from_str("File has no extension"))),
    };
    let e = ext.as_str();
    let t = if str_eq(e, "csv") || str_eq(e, "tsv") || str_eq(e, "txt") {
        AssetType::Dataset
    } else if str_eq(e, "json") || str_eq(e, "jsonl") {
        AssetType::Dataset
    } else if str_eq(e, "parquet") || str_eq(e, "orc") || str_eq(e, "avro") {
        AssetType::Dataset
    } else if str_eq(e, "tfrecord") || str_eq(e, "tfrec") {
        AssetType::DatasetTensorFlow
    } else if str_eq(e, "pt") || str_eq(e, "pth") {
        AssetType::DatasetPyTorch
    } else {
        AssetType::Dataset
    };
    Ok(t)
}

/// Determines the MIME type from the extension of `path`;
/// `application/octet-stream` for unknown or missing extensions.
pub fn determine_format(path: &str) -> (r: Result<String>)
    ensures
        r matches Ok(s) && s@ == format_for(path_extension(path@)),
{
    let ext = path_extension_of(path);
    let m = match ext {
        None => "application/octet-stream",
        Some(ext) => {
            let e = ext.as_str();
            if str_eq(e, "pb") {
                "application/x-protobuf"
            } else if str_eq(e, "tf") || str_eq(e, "savedmodel") {
                "application/x-tensorflow"
            } else if str_eq(e, "pt") || str_eq(e, "pth") || str_eq(e, "pytorch") {
                "application/x-pytorch"
            } else if str_eq(e, "onnx") {
                "application/onnx"
            } else if str_eq(e, "bin") || str_eq(e, "xml") {
                "application/x-openvino"
            } else if str_eq(e, "h5") || str_eq(e, "hdf5") {
                "application/x-hdf5"
            } else if str_eq(e, "json") {
                "application/json"
            } else if str_eq(e, "csv") {
                "text/csv"
            } else if str_eq(e, "txt") {
                "text/plain"
            } else if str_eq(e, "zip") {
                "application/zip"
            } else {
                "application/octet-stream"
            }
        },
    };
    Ok(String::from_str(m))
}

} // verus!
