//! The names by which decorations spell SPIR-V enumerants, and the word
//! value of each.
use vstd::prelude::*;

verus! {

/// Whether `s` is exactly the text `w`.
pub fn is_word(s: &String, w: &str) -> (r: bool)
    ensures
        r == (s@ == w@),
{
    *s == w.to_owned()
}

/// The SPIR-V word of each of the execution models by name.
pub open spec fn spec_execution_model_word(s: Seq<char>) -> Option<u32> {
    if s == "vertex"@ {
        Some(0)
    } else if s == "tessellation_control"@ {
        Some(1)
    } else if s == "tessellation_evaluation"@ {
        Some(2)
    } else if s == "geometry"@ {
        Some(3)
    } else if s == "fragment"@ {
        Some(4)
    } else if s == "gl_compute"@ {
        Some(5)
    } else if s == "kernel"@ {
        Some(6)
    } else {
        None
    }
}

pub fn execution_model_word(s: &String) -> (r: Option<u32>)
    ensures
        r == spec_execution_model_word(s@),
{
    if is_word(s, "vertex") {
        Some(0)
    } else if is_word(s, "tessellation_control") {
        Some(1)
    } else if is_word(s, "tessellation_evaluation") {
        Some(2)
    } else if is_word(s, "geometry") {
        Some(3)
    } else if is_word(s, "fragment") {
        Some(4)
    } else if is_word(s, "gl_compute") {
        Some(5)
    } else if is_word(s, "kernel") {
        Some(6)
    } else {
        None
    }
}

/// The SPIR-V word of each of the storage classes by name.
pub open spec fn spec_storage_class_word(s: Seq<char>) -> Option<u32> {
    if s == "uniform_constant"@ {
        Some(0)
    } else if s == "input"@ {
        Some(1)
    } else if s == "uniform"@ {
        Some(2)
    } else if s == "output"@ {
        Some(3)
    } else if s == "workgroup"@ {
        Some(4)
    } else if s == "cross_workgroup"@ {
        Some(5)
    } else if s == "private"@ {
        Some(6)
    } else if s == "function"@ {
        Some(7)
    } else if s == "generic"@ {
        Some(8)
    } else if s == "push_constant"@ {
        Some(9)
    } else if s == "atomic_counter"@ {
        Some(10)
    } else if s == "image"@ {
        Some(11)
    } else if s == "storage_buffer"@ {
        Some(12)
    } else {
        None
    }
}

pub fn storage_class_word(s: &String) -> (r: Option<u32>)
    ensures
        r == spec_storage_class_word(s@),
{
    if is_word(s, "uniform_constant") {
        Some(0)
    } else if is_word(s, "input") {
        Some(1)
    } else if is_word(s, "uniform") {
        Some(2)
    } else if is_word(s, "output") {
        Some(3)
    } else if is_word(s, "workgroup") {
        Some(4)
    } else if is_word(s, "cross_workgroup") {
        Some(5)
    } else if is_word(s, "private") {
        Some(6)
    } else if is_word(s, "function") {
        Some(7)
    } else if is_word(s, "generic") {
        Some(8)
    } else if is_word(s, "push_constant") {
        Some(9)
    } else if is_word(s, "atomic_counter") {
        Some(10)
    } else if is_word(s, "image") {
        Some(11)
    } else if is_word(s, "storage_buffer") {
        Some(12)
    } else {
        None
    }
}

/// The SPIR-V word of each of the built-in variables by name.
pub open spec fn spec_builtin_word(s: Seq<char>) -> Option<u32> {
    if s == "position"@ {
        Some(0)
    } else if s == "point_size"@ {
        Some(1)
    } else if s == "clip_distance"@ {
        Some(3)
    } else if s == "cull_distance"@ {
        Some(4)
    } else if s == "vertex_id"@ {
        Some(5)
    } else if s == "instance_id"@ {
        Some(6)
    } else if s == "primitive_id"@ {
        Some(7)
    } else if s == "invocation_id"@ {
        Some(8)
    } else if s == "layer"@ {
        Some(9)
    } else if s == "viewport_index"@ {
        Some(10)
    } else if s == "tess_level_outer"@ {
        Some(11)
    } else if s == "tess_level_inner"@ {
        Some(12)
    } else if s == "tess_coord"@ {
        Some(13)
    } else if s == "patch_vertices"@ {
        Some(14)
    } else if s == "frag_coord"@ {
        Some(15)
    } else if s == "point_coord"@ {
        Some(16)
    } else if s == "front_facing"@ {
        Some(17)
    } else if s == "sample_id"@ {
        Some(18)
    } else if s == "sample_position"@ {
        Some(19)
    } else if s == "sample_mask"@ {
        Some(20)
    } else if s == "frag_depth"@ {
        Some(22)
    } else if s == "helper_invocation"@ {
        Some(23)
    } else if s == "num_workgroups"@ {
        Some(24)
    } else if s == "workgroup_size"@ {
        Some(25)
    } else if s == "workgroup_id"@ {
        Some(26)
    } else if s == "local_invocation_id"@ {
        Some(27)
    } else if s == "global_invocation_id"@ {
        Some(28)
    } else if s == "local_invocation_index"@ {
        Some(29)
    } else if s == "vertex_index"@ {
        Some(42)
    } else if s == "instance_index"@ {
        Some(43)
    } else {
        None
    }
}

pub fn builtin_word(s: &String) -> (r: Option<u32>)
    ensures
        r == spec_builtin_word(s@),
{
    if is_word(s, "position") {
        Some(0)
    } else if is_word(s, "point_size") {
        Some(1)
    } else if is_word(s, "clip_distance") {
        Some(3)
    } else if is_word(s, "cull_distance") {
        Some(4)
    } else if is_word(s, "vertex_id") {
        Some(5)
    } else if is_word(s, "instance_id") {
        Some(6)
    } else if is_word(s, "primitive_id") {
        Some(7)
    } else if is_word(s, "invocation_id") {
        Some(8)
    } else if is_word(s, "layer") {
        Some(9)
    } else if is_word(s, "viewport_index") {
        Some(10)
    } else if is_word(s, "tess_level_outer") {
        Some(11)
    } else if is_word(s, "tess_level_inner") {
        Some(12)
    } else if is_word(s, "tess_coord") {
        Some(13)
    } else if is_word(s, "patch_vertices") {
        Some(14)
    } else if is_word(s, "frag_coord") {
        Some(15)
    } else if is_word(s, "point_coord") {
        Some(16)
    } else if is_word(s, "front_facing") {
        Some(17)
    } else if is_word(s, "sample_id") {
        Some(18)
    } else if is_word(s, "sample_position") {
        Some(19)
    } else if is_word(s, "sample_mask") {
        Some(20)
    } else if is_word(s, "frag_depth") {
        Some(22)
    } else if is_word(s, "helper_invocation") {
        Some(23)
    } else if is_word(s, "num_workgroups") {
        Some(24)
    } else if is_word(s, "workgroup_size") {
        Some(25)
    } else if is_word(s, "workgroup_id") {
        Some(26)
    } else if is_word(s, "local_invocation_id") {
        Some(27)
    } else if is_word(s, "global_invocation_id") {
        Some(28)
    } else if is_word(s, "local_invocation_index") {
        Some(29)
    } else if is_word(s, "vertex_index") {
        Some(42)
    } else if is_word(s, "instance_index") {
        Some(43)
    } else {
        None
    }
}

/// The SPIR-V word of each of the execution modes by name.
pub open spec fn spec_execution_mode_word(s: Seq<char>) -> Option<u32> {
    if s == "invocations"@ {
        Some(0)
    } else if s == "spacing_equal"@ {
        Some(1)
    } else if s == "spacing_fractional_even"@ {
        Some(2)
    } else if s == "spacing_fractional_odd"@ {
        Some(3)
    } else if s == "vertex_order_cw"@ {
        Some(4)
    } else if s == "vertex_order_ccw"@ {
        Some(5)
    } else if s == "pixel_center_integer"@ {
        Some(6)
    } else if s == "origin_upper_left"@ {
        Some(7)
    } else if s == "origin_lower_left"@ {
        Some(8)
    } else if s == "early_fragment_tests"@ {
        Some(9)
    } else if s == "point_mode"@ {
        Some(10)
    } else if s == "xfb"@ {
        Some(11)
    } else if s == "depth_replacing"@ {
        Some(12)
    } else if s == "depth_greater"@ {
        Some(14)
    } else if s == "depth_less"@ {
        Some(15)
    } else if s == "depth_unchanged"@ {
        Some(16)
    } else if s == "local_size"@ {
        Some(17)
    } else if s == "local_size_hint"@ {
        Some(18)
    } else if s == "input_points"@ {
        Some(19)
    } else if s == "input_lines"@ {
        Some(20)
    } else if s == "input_lines_adjacency"@ {
        Some(21)
    } else if s == "triangles"@ {
        Some(22)
    } else if s == "input_triangles_adjacency"@ {
        Some(23)
    } else if s == "quads"@ {
        Some(24)
    } else if s == "isolines"@ {
        Some(25)
    } else if s == "output_vertices"@ {
        Some(26)
    } else if s == "output_points"@ {
        Some(27)
    } else if s == "output_line_strip"@ {
        Some(28)
    } else if s == "output_triangle_strip"@ {
        Some(29)
    } else {
        None
    }
}

pub fn execution_mode_word(s: &String) -> (r: Option<u32>)
    ensures
        r == spec_execution_mode_word(s@),
{
    if is_word(s, "invocations") {
        Some(0)
    } else if is_word(s, "spacing_equal") {
        Some(1)
    } else if is_word(s, "spacing_fractional_even") {
        Some(2)
    } else if is_word(s, "spacing_fractional_odd") {
        Some(3)
    } else if is_word(s, "vertex_order_cw") {
        Some(4)
    } else if is_word(s, "vertex_order_ccw") {
        Some(5)
    } else if is_word(s, "pixel_center_integer") {
        Some(6)
    } else if is_word(s, "origin_upper_left") {
        Some(7)
    } else if is_word(s, "origin_lower_left") {
        Some(8)
    } else if is_word(s, "early_fragment_tests") {
        Some(9)
    } else if is_word(s, "point_mode") {
        Some(10)
    } else if is_word(s, "xfb") {
        Some(11)
    } else if is_word(s, "depth_replacing") {
        Some(12)
    } else if is_word(s, "depth_greater") {
        Some(14)
    } else if is_word(s, "depth_less") {
        Some(15)
    } else if is_word(s, "depth_unchanged") {
        Some(16)
    } else if is_word(s, "local_size") {
        Some(17)
    } else if is_word(s, "local_size_hint") {
        Some(18)
    } else if is_word(s, "input_points") {
        Some(19)
    } else if is_word(s, "input_lines") {
        Some(20)
    } else if is_word(s, "input_lines_adjacency") {
        Some(21)
    } else if is_word(s, "triangles") {
        Some(22)
    } else if is_word(s, "input_triangles_adjacency") {
        Some(23)
    } else if is_word(s, "quads") {
        Some(24)
    } else if is_word(s, "isolines") {
        Some(25)
    } else if is_word(s, "output_vertices") {
        Some(26)
    } else if is_word(s, "output_points") {
        Some(27)
    } else if is_word(s, "output_line_strip") {
        Some(28)
    } else if is_word(s, "output_triangle_strip") {
        Some(29)
    } else {
        None
    }
}

/// The SPIR-V word of each of the image dimensions by name.
pub open spec fn spec_dim_word(s: Seq<char>) -> Option<u32> {
    if s == "Dim1D"@ {
        Some(0)
    } else if s == "Dim2D"@ {
        Some(1)
    } else if s == "Dim3D"@ {
        Some(2)
    } else if s == "DimCube"@ {
        Some(3)
    } else if s == "DimRect"@ {
        Some(4)
    } else if s == "DimBuffer"@ {
        Some(5)
    } else if s == "DimSubpassData"@ {
        Some(6)
    } else {
        None
    }
}

pub fn dim_word(s: &String) -> (r: Option<u32>)
    ensures
        r == spec_dim_word(s@),
{
    if is_word(s, "Dim1D") {
        Some(0)
    } else if is_word(s, "Dim2D") {
        Some(1)
    } else if is_word(s, "Dim3D") {
        Some(2)
    } else if is_word(s, "DimCube") {
        Some(3)
    } else if is_word(s, "DimRect") {
        Some(4)
    } else if is_word(s, "DimBuffer") {
        Some(5)
    } else if is_word(s, "DimSubpassData") {
        Some(6)
    } else {
        None
    }
}

/// The SPIR-V word of each of the image formats by name.
pub open spec fn spec_image_format_word(s: Seq<char>) -> Option<u32> {
    if s == "Unknown"@ {
        Some(0)
    } else if s == "Rgba32f"@ {
        Some(1)
    } else if s == "Rgba16f"@ {
        Some(2)
    } else if s == "R32f"@ {
        Some(3)
    } else if s == "Rgba8"@ {
        Some(4)
    } else if s == "Rgba8Snorm"@ {
        Some(5)
    } else if s == "Rg32f"@ {
        Some(6)
    } else if s == "Rg16f"@ {
        Some(7)
    } else if s == "R11fG11fB10f"@ {
        Some(8)
    } else if s == "R16f"@ {
        Some(9)
    } else if s == "Rgba16"@ {
        Some(10)
    } else if s == "Rgb10A2"@ {
        Some(11)
    } else if s == "Rg16"@ {
        Some(12)
    } else if s == "Rg8"@ {
        Some(13)
    } else if s == "R16"@ {
        Some(14)
    } else if s == "R8"@ {
        Some(15)
    } else if s == "Rgba16Snorm"@ {
        Some(16)
    } else if s == "Rg16Snorm"@ {
        Some(17)
    } else if s == "Rg8Snorm"@ {
        Some(18)
    } else if s == "R16Snorm"@ {
        Some(19)
    } else if s == "R8Snorm"@ {
        Some(20)
    } else if s == "Rgba32i"@ {
        Some(21)
    } else if s == "Rgba16i"@ {
        Some(22)
    } else if s == "Rgba8i"@ {
        Some(23)
    } else if s == "R32i"@ {
        Some(24)
    } else if s == "Rg32i"@ {
        Some(25)
    } else if s == "Rg16i"@ {
        Some(26)
    } else if s == "Rg8i"@ {
        Some(27)
    } else if s == "R16i"@ {
        Some(28)
    } else if s == "R8i"@ {
        Some(29)
    } else if s == "Rgba32ui"@ {
        Some(30)
    } else if s == "Rgba16ui"@ {
        Some(31)
    } else if s == "Rgba8ui"@ {
        Some(32)
    } else if s == "R32ui"@ {
        Some(33)
    } else if s == "Rgb10a2ui"@ {
        Some(34)
    } else if s == "Rg32ui"@ {
        Some(35)
    } else if s == "Rg16ui"@ {
        Some(36)
    } else if s == "Rg8ui"@ {
        Some(37)
    } else if s == "R16ui"@ {
        Some(38)
    } else if s == "R8ui"@ {
        Some(39)
    } else {
        None
    }
}

pub fn image_format_word(s: &String) -> (r: Option<u32>)
    ensures
        r == spec_image_format_word(s@),
{
    if is_word(s, "Unknown") {
        Some(0)
    } else if is_word(s, "Rgba32f") {
        Some(1)
    } else if is_word(s, "Rgba16f") {
        Some(2)
    } else if is_word(s, "R32f") {
        Some(3)
    } else if is_word(s, "Rgba8") {
        Some(4)
    } else if is_word(s, "Rgba8Snorm") {
        Some(5)
    } else if is_word(s, "Rg32f") {
        Some(6)
    } else if is_word(s, "Rg16f") {
        Some(7)
    } else if is_word(s, "R11fG11fB10f") {
        Some(8)
    } else if is_word(s, "R16f") {
        Some(9)
    } else if is_word(s, "Rgba16") {
        Some(10)
    } else if is_word(s, "Rgb10A2") {
        Some(11)
    } else if is_word(s, "Rg16") {
        Some(12)
    } else if is_word(s, "Rg8") {
        Some(13)
    } else if is_word(s, "R16") {
        Some(14)
    } else if is_word(s, "R8") {
        Some(15)
    } else if is_word(s, "Rgba16Snorm") {
        Some(16)
    } else if is_word(s, "Rg16Snorm") {
        Some(17)
    } else if is_word(s, "Rg8Snorm") {
        Some(18)
    } else if is_word(s, "R16Snorm") {
        Some(19)
    } else if is_word(s, "R8Snorm") {
        Some(20)
    } else if is_word(s, "Rgba32i") {
        Some(21)
    } else if is_word(s, "Rgba16i") {
        Some(22)
    } else if is_word(s, "Rgba8i") {
        Some(23)
    } else if is_word(s, "R32i") {
        Some(24)
    } else if is_word(s, "Rg32i") {
        Some(25)
    } else if is_word(s, "Rg16i") {
        Some(26)
    } else if is_word(s, "Rg8i") {
        Some(27)
    } else if is_word(s, "R16i") {
        Some(28)
    } else if is_word(s, "R8i") {
        Some(29)
    } else if is_word(s, "Rgba32ui") {
        Some(30)
    } else if is_word(s, "Rgba16ui") {
        Some(31)
    } else if is_word(s, "Rgba8ui") {
        Some(32)
    } else if is_word(s, "R32ui") {
        Some(33)
    } else if is_word(s, "Rgb10a2ui") {
        Some(34)
    } else if is_word(s, "Rg32ui") {
        Some(35)
    } else if is_word(s, "Rg16ui") {
        Some(36)
    } else if is_word(s, "Rg8ui") {
        Some(37)
    } else if is_word(s, "R16ui") {
        Some(38)
    } else if is_word(s, "R8ui") {
        Some(39)
    } else {
        None
    }
}

/// The SPIR-V word of each of the access qualifiers by name.
pub open spec fn spec_access_qualifier_word(s: Seq<char>) -> Option<u32> {
    if s == "ReadOnly"@ {
        Some(0)
    } else if s == "WriteOnly"@ {
        Some(1)
    } else if s == "ReadWrite"@ {
        Some(2)
    } else {
        None
    }
}

pub fn access_qualifier_word(s: &String) -> (r: Option<u32>)
    ensures
        r == spec_access_qualifier_word(s@),
{
    if is_word(s, "ReadOnly") {
        Some(0)
    } else if is_word(s, "WriteOnly") {
        Some(1)
    } else if is_word(s, "ReadWrite") {
        Some(2)
    } else {
        None
    }
}

} // verus!
