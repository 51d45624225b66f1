use surfman_angle::attributes::{
    ContextAttributeFlags, ContextAttributes, GLApi, GLFlavor, GLInfo, GLVersion,
};
use surfman_angle::egl::{
    ALPHA_SIZE, CONFIG_ID, CONTEXT_CLIENT_VERSION, D3D11_DEVICE_ANGLE, DEPTH_SIZE, DEVICE_EXT,
    NONE, NO_CONTEXT, NO_SURFACE, STENCIL_SIZE,
};
use surfman_angle::{
    ColorSurface, Context, ContextDescriptor, Device, Error, GLLoader, NativeCall, NativeContext,
    NativeReply, Operation, OwnedEGLContext, ReplyCheck, Step, Surface,
    SurfaceBindings, UnsafeEGLContextRef, WindowingApiError,
};

const DISPLAY: usize = 0x100;

const FIRST: GLLoader = GLLoader { previous_context_created: false };

const LATER: GLLoader = GLLoader { previous_context_created: true };

fn device() -> Device {
    Device {
        egl_display: DISPLAY,
        egl_device: 0x200,
        d3d11_device: 0x300,
        d3d_driver_type: 0,
        surface_bindings: SurfaceBindings::new(),
    }
}

fn flavor(api: GLApi, major: u8, minor: u8) -> GLFlavor {
    GLFlavor { api, version: GLVersion { major, minor } }
}

fn descriptor(id: i32, major: u8) -> ContextDescriptor {
    ContextDescriptor::for_flavor(id, flavor(GLApi::GLES, major, 0))
}

fn surface(id: i32, major: u8, handle: usize) -> Surface {
    Surface { descriptor: descriptor(id, major), handle }
}

fn owned(egl_context: usize, color_surface: ColorSurface) -> Context {
    Context {
        native_context: NativeContext::Owned(OwnedEGLContext { egl_context }),
        gl_info: GLInfo::new(),
        color_surface,
    }
}

fn borrowed(egl_context: usize) -> Context {
    Context {
        native_context: NativeContext::Borrowed(UnsafeEGLContextRef { egl_context }),
        gl_info: GLInfo::new(),
        color_surface: ColorSurface::External,
    }
}

fn ok() -> NativeReply {
    NativeReply { status: 1, handle: 0, value: 0 }
}

fn failed() -> NativeReply {
    NativeReply { status: 0, handle: 0, value: 0 }
}

fn value(value: i32) -> NativeReply {
    NativeReply { status: 1, handle: 0, value }
}

fn handle(handle: usize) -> NativeReply {
    NativeReply { status: 1, handle, value: 0 }
}

fn config(handle: usize, count: i32) -> NativeReply {
    NativeReply { status: 1, handle, value: count }
}

fn code(value: i32) -> NativeReply {
    NativeReply { status: 0, handle: 0, value }
}

/// Runs an operation to its end; gives the calls and the result, or the check that
/// refused a reply.
fn drive<O>(
    target: &mut O::Target,
    first: Step<O, NativeCall, O::Output>,
    replies: &[NativeReply],
) -> (Vec<NativeCall>, Result<O::Output, ReplyCheck>)
where
    O: Operation<Call = NativeCall, Reply = NativeReply>,
{
    let mut calls: Vec<NativeCall> = Vec::new();
    let mut step = first;
    let mut at: usize = 0;
    loop {
        match step {
            Step::Done(output) => {
                assert_eq!(at, replies.len());
                return (calls, Ok(output));
            }
            Step::Call(call, state) => {
                calls.push(call);
                let reply = replies[at];
                at += 1;
                let check = state.check(target, &reply);
                if check == ReplyCheck::Fault {
                    return (calls, Err(check));
                }
                step = state.step(target, reply);
            }
        }
    }
}

fn choose_by_id(id: i32) -> NativeCall {
    NativeCall::ChooseConfigById {
        display: DISPLAY,
        id_attributes: [CONFIG_ID, id, NONE, 0, 0, 0],
        config_size: 1,
    }
}

fn query(context: usize, attribute: i32) -> NativeCall {
    NativeCall::QueryContext { display: DISPLAY, context, attribute }
}

fn config_attrib(config: usize, attribute: i32) -> NativeCall {
    NativeCall::GetConfigAttrib { display: DISPLAY, config, attribute }
}

fn bind(surface: usize, context: usize) -> NativeCall {
    NativeCall::MakeCurrent { display: DISPLAY, draw: surface, read: surface, context }
}

fn wanted(bits: u8, api: GLApi) -> ContextAttributes {
    ContextAttributes { flags: ContextAttributeFlags { bits }, flavor: flavor(api, 3, 1) }
}

#[test]
fn descriptor_asks_for_all_buffers() {
    let step = device().create_context_descriptor(&wanted(7, GLApi::GLES));
    let (calls, result) = drive(&mut (), step, &[config(0x77, 1), value(42)]);
    assert_eq!(
        calls,
        vec![
            NativeCall::ChooseConfig {
                display: DISPLAY,
                config_attributes: [
                    0x3033, 1, 0x3040, 4, 0x303a, 1, 0x3024, 8, 0x3023, 8, 0x3022, 8, 0x3021, 8,
                    0x3025, 24, 0x3026, 8, 0x3038, 0, 0, 0,
                ],
                config_size: 1,
            },
            config_attrib(0x77, 0x3028),
        ]
    );
    let found = result.unwrap().unwrap();
    assert_eq!(found.egl_config_id, 42);
    assert_eq!(found.egl_context_client_version, 3);
    assert_eq!(found.flavor, flavor(GLApi::GLES, 3, 1));
}

#[test]
fn descriptor_asks_for_no_buffers() {
    let step = device().create_context_descriptor(&wanted(0, GLApi::GL));
    match step {
        Step::Call(NativeCall::ChooseConfig { config_attributes, .. }, _) => {
            assert_eq!(config_attributes[3], 8);
            assert_eq!(config_attributes[13], 0);
            assert_eq!(config_attributes[15], 0);
            assert_eq!(config_attributes[17], 0);
        }
        other => panic!("{:?}", other),
    }
}

#[test]
fn descriptor_asks_for_depth_alone() {
    let step = device().create_context_descriptor(&wanted(2, GLApi::GLES));
    match step {
        Step::Call(NativeCall::ChooseConfig { config_attributes, .. }, _) => {
            assert_eq!(config_attributes[13], 0);
            assert_eq!(config_attributes[15], 24);
            assert_eq!(config_attributes[17], 0);
        }
        other => panic!("{:?}", other),
    }
}

#[test]
fn descriptor_reports_selection_failure() {
    let step = device().create_context_descriptor(&wanted(1, GLApi::GLES));
    let (calls, result) = drive(&mut (), step, &[failed(), code(0x3005)]);
    assert_eq!(calls[1], NativeCall::GetError);
    assert_eq!(
        result,
        Ok(Err(Error::PixelFormatSelectionFailed(WindowingApiError { code: 0x3005 })))
    );
}

#[test]
fn descriptor_reports_no_config() {
    let step = device().create_context_descriptor(&wanted(1, GLApi::GLES));
    let (_, result) = drive(&mut (), step, &[config(0x77, 0)]);
    assert_eq!(result, Ok(Err(Error::NoPixelFormatFound)));
    let step = device().create_context_descriptor(&wanted(1, GLApi::GLES));
    let (_, result) = drive(&mut (), step, &[config(0, 1)]);
    assert_eq!(result, Ok(Err(Error::NoPixelFormatFound)));
}

#[test]
fn unread_config_id_is_a_debug_fault() {
    let step = device().create_context_descriptor(&wanted(0, GLApi::GLES));
    let state = match step {
        Step::Call(_, state) => state,
        Step::Done(_) => panic!("done"),
    };
    assert_eq!(state.check(&(), &failed()), ReplyCheck::Accepted);
    let state = match state.step(&mut (), config(0x77, 1)) {
        Step::Call(_, state) => state,
        Step::Done(_) => panic!("done"),
    };
    assert_eq!(state.check(&(), &failed()), ReplyCheck::DebugFault);
    assert_eq!(state.check(&(), &value(1)), ReplyCheck::Accepted);
    assert_eq!(
        state.step(&mut (), failed()),
        Step::Done(Ok(ContextDescriptor::for_flavor(0, flavor(GLApi::GLES, 3, 1))))
    );
}

#[test]
fn context_is_described() {
    let context = owned(0x10, ColorSurface::Nothing);
    let step = device().context_descriptor(&context);
    let (calls, result) = drive(&mut (), step, &[value(42), value(3)]);
    assert_eq!(calls, vec![query(0x10, CONFIG_ID), query(0x10, CONTEXT_CLIENT_VERSION)]);
    let found = result.unwrap();
    assert_eq!(found.egl_config_id, 42);
    assert_eq!(found.egl_context_client_version, 3);
    assert_eq!(found.flavor, flavor(GLApi::GLES, 3, 0));
}

#[test]
fn undescribed_context_is_a_fault() {
    let context = borrowed(0x10);
    let (calls, result) = drive(&mut (), device().context_descriptor(&context), &[failed()]);
    assert_eq!(calls.len(), 1);
    assert_eq!(result, Err(ReplyCheck::Fault));
    let (calls, result) =
        drive(&mut (), device().context_descriptor(&context), &[value(42), failed()]);
    assert_eq!(calls.len(), 2);
    assert_eq!(result, Err(ReplyCheck::Fault));
}

#[test]
fn version_of_nothing_is_a_debug_fault() {
    let context = borrowed(0x10);
    let state = match device().context_descriptor(&context) {
        Step::Call(_, state) => state,
        Step::Done(_) => panic!("done"),
    };
    assert_eq!(state.check(&(), &value(0)), ReplyCheck::Accepted);
    let state = match state.step(&mut (), value(42)) {
        Step::Call(_, state) => state,
        Step::Done(_) => panic!("done"),
    };
    assert_eq!(state.check(&(), &value(0)), ReplyCheck::DebugFault);
    assert_eq!(state.check(&(), &value(1)), ReplyCheck::Accepted);
}

#[test]
fn config_is_resolved() {
    let step = device().context_descriptor_to_egl_config(&descriptor(42, 3));
    let (calls, result) = drive(&mut (), step, &[config(0x77, 1)]);
    assert_eq!(calls, vec![choose_by_id(42)]);
    assert_eq!(result, Ok(0x77));
    for reply in [failed(), config(0x77, 0), config(0x77, -1)] {
        let step = device().context_descriptor_to_egl_config(&descriptor(42, 3));
        let (_, result) = drive(&mut (), step, &[reply]);
        assert_eq!(result, Err(ReplyCheck::Fault));
    }
}

#[test]
fn attributes_are_read() {
    let wanted_flavor = flavor(GLApi::GL, 4, 1);
    let found = ContextDescriptor::for_flavor(42, wanted_flavor);
    let step = device().context_descriptor_attributes(&found);
    let (calls, result) =
        drive(&mut (), step, &[config(0x77, 1), value(8), value(0), value(1)]);
    assert_eq!(
        calls,
        vec![
            choose_by_id(42),
            config_attrib(0x77, ALPHA_SIZE),
            config_attrib(0x77, DEPTH_SIZE),
            config_attrib(0x77, STENCIL_SIZE),
        ]
    );
    let attributes = result.unwrap();
    assert_eq!(attributes.flavor, wanted_flavor);
    assert_eq!(attributes.flags.bits, 5);
    assert!(attributes.flags.contains(ContextAttributeFlags::ALPHA));
    assert!(!attributes.flags.contains(ContextAttributeFlags::DEPTH));
    assert!(attributes.flags.contains(ContextAttributeFlags::STENCIL));
}

#[test]
fn attributes_round_trip() {
    for bits in 0u8..8 {
        let attributes = wanted(bits, GLApi::GLES);
        let step = device().create_context_descriptor(&attributes);
        let (calls, result) = drive(&mut (), step, &[config(0x77, 1), value(9)]);
        let sizes = match &calls[0] {
            NativeCall::ChooseConfig { config_attributes, .. } => {
                [config_attributes[13], config_attributes[15], config_attributes[17]]
            }
            other => panic!("{:?}", other),
        };
        let found = result.unwrap().unwrap();
        let step = device().context_descriptor_attributes(&found);
        let (_, read) = drive(
            &mut (),
            step,
            &[config(0x77, 1), value(sizes[0]), value(sizes[1]), value(sizes[2])],
        );
        assert_eq!(read, Ok(attributes));
    }
}

#[test]
fn flags_are_set_and_cleared() {
    let mut flags = ContextAttributeFlags::empty();
    assert_eq!(flags.bits, 0);
    flags.set(ContextAttributeFlags::DEPTH, true);
    assert_eq!(flags.bits, 2);
    flags.set(ContextAttributeFlags::ALPHA, true);
    assert_eq!(flags.bits, 3);
    flags.set(ContextAttributeFlags::DEPTH, false);
    assert_eq!(flags.bits, 1);
    assert!(flags.contains(0));
    assert!(!flags.contains(3));
}

#[test]
fn context_with_surface_is_made_current() {
    let context = owned(0x10, ColorSurface::Managed(surface(42, 3, 0x5)));
    let step = device().make_context_current(&context);
    let (calls, result) = drive(&mut (), step, &[handle(0x55), ok()]);
    assert_eq!(calls, vec![NativeCall::LookupSurface { handle: 0x5 }, bind(0x55, 0x10)]);
    assert_eq!(result, Ok(Ok(())));
}

#[test]
fn context_without_surface_is_made_current() {
    let context = owned(0x10, ColorSurface::Nothing);
    let (calls, result) = drive(&mut (), device().make_context_current(&context), &[ok()]);
    assert_eq!(calls, vec![bind(NO_SURFACE, 0x10)]);
    assert_eq!(result, Ok(Ok(())));
}

#[test]
fn taken_over_context_keeps_its_target() {
    let (_, result) =
        drive(&mut { LATER }, Device::from_current_context(), &adoption_replies());
    let (device, context) = result.unwrap().unwrap();
    let step = device.make_context_current(&context);
    assert_eq!(step, Step::Done(Err(Error::ExternalRenderTarget)));
}

#[test]
fn context_is_made_not_current() {
    let context = owned(0x10, ColorSurface::Managed(surface(42, 3, 0x5)));
    let (calls, result) = drive(&mut (), device().make_context_not_current(&context), &[ok()]);
    assert_eq!(calls, vec![bind(NO_SURFACE, NO_CONTEXT)]);
    assert_eq!(result, Ok(Ok(())));
}

#[test]
fn make_current_failure_is_reported() {
    let expected = Ok(Err(Error::MakeCurrentFailed(WindowingApiError { code: 0x3006 })));
    let context = owned(0x10, ColorSurface::Managed(surface(42, 3, 0x5)));
    let step = device().make_context_current(&context);
    let (calls, result) = drive(&mut (), step, &[handle(0x55), failed(), code(0x3006)]);
    assert_eq!(calls[2], NativeCall::GetError);
    assert_eq!(result, expected);
    let step = device().make_context_not_current(&context);
    let (calls, result) = drive(&mut (), step, &[failed(), code(0x3006)]);
    assert_eq!(calls[1], NativeCall::GetError);
    assert_eq!(result, expected);
}

fn creation_replies() -> Vec<NativeReply> {
    vec![
        config(0x77, 1),
        handle(0x10),
        value(42),
        value(3),
        config(0x78, 1),
        value(8),
        value(24),
        value(0),
        handle(0x55),
        ok(),
    ]
}

fn creation_calls() -> Vec<NativeCall> {
    vec![
        choose_by_id(42),
        NativeCall::CreateContext {
            display: DISPLAY,
            config: 0x77,
            share_context: NO_CONTEXT,
            context_attributes: [0x3098, 3, 0x3038, 0, 0, 0],
        },
        query(0x10, CONFIG_ID),
        query(0x10, CONTEXT_CLIENT_VERSION),
        choose_by_id(42),
        config_attrib(0x78, ALPHA_SIZE),
        config_attrib(0x78, DEPTH_SIZE),
        config_attrib(0x78, STENCIL_SIZE),
        NativeCall::LookupSurface { handle: 0x5 },
        bind(0x55, 0x10),
    ]
}

#[test]
fn later_context_is_created() {
    let step = device().create_context(surface(42, 3, 0x5));
    let (calls, result) = drive(&mut { LATER }, step, &creation_replies());
    assert_eq!(calls, creation_calls());
    let context = result.unwrap().unwrap();
    assert_eq!(
        context.native_context,
        NativeContext::Owned(OwnedEGLContext { egl_context: 0x10 })
    );
    assert_eq!(
        *device().context_gl_info(&context),
        GLInfo {
            attributes: Some(ContextAttributes {
                flags: ContextAttributeFlags { bits: 3 },
                flavor: flavor(GLApi::GLES, 3, 0),
            }),
        }
    );
    assert_eq!(device().context_color_surface(&context), Some(&surface(42, 3, 0x5)));
}

#[test]
fn first_context_loads_gl() {
    let step = device().create_context(surface(42, 3, 0x5));
    let mut replies = creation_replies();
    replies.insert(2, failed());
    let mut expected = creation_calls();
    expected.insert(2, NativeCall::LoadGL);
    let (calls, result) = drive(&mut { FIRST }, step, &replies);
    assert_eq!(calls, expected);
    assert!(result.unwrap().is_ok());
}

#[test]
fn loader_remembers() {
    let mut loader = GLLoader::new();
    assert_eq!(loader, FIRST);
    loader.note_loaded();
    assert_eq!(loader, LATER);
    loader.note_loaded();
    assert_eq!(loader, LATER);
}

#[test]
fn gl_is_loaded_once_in_all() {
    let mut loader = GLLoader::new();
    let mut calls: Vec<NativeCall> = Vec::new();
    let step = device().create_context(surface(42, 3, 0x5));
    let (some, _) = drive(&mut loader, step, &[config(0x77, 1), handle(0), code(0x3009)]);
    calls.extend(some);
    assert_eq!(loader, FIRST);
    let mut replies = adoption_replies();
    replies.insert(4, failed());
    let (some, _) = drive(&mut loader, Device::from_current_context(), &replies);
    calls.extend(some);
    assert_eq!(loader, LATER);
    let step = device().create_context(surface(42, 3, 0x5));
    let (some, result) = drive(&mut loader, step, &creation_replies());
    calls.extend(some);
    assert!(result.unwrap().is_ok());
    assert_eq!(loader, LATER);
    assert_eq!(calls.iter().filter(|call| **call == NativeCall::LoadGL).count(), 1);
}

#[test]
fn created_context_fits_its_surface() {
    let step = device().create_context(surface(42, 3, 0x5));
    let (_, result) = drive(&mut { LATER }, step, &creation_replies());
    let mut context = result.unwrap().unwrap();
    let (_, found) =
        drive(&mut (), device().context_descriptor(&context), &[value(42), value(3)]);
    assert!(surface(42, 3, 0x5).descriptor.is_compatible_with(&found.unwrap()));
    let step = device().replace_context_color_surface(&mut context, surface(42, 3, 0x6));
    let (_, result) = drive(&mut context, step, &[value(42), value(3), handle(0x66), ok()]);
    assert_eq!(result, Ok(Ok(Some(surface(42, 3, 0x5)))));
}

#[test]
fn bindings_are_told_apart() {
    assert!(SurfaceBindings::new().is_empty());
    let bound = SurfaceBindings::Bound {
        handle: 0x5,
        before: Box::new(SurfaceBindings::Unbound),
    };
    assert!(!bound.is_empty());
}

#[test]
fn creation_failure_is_reported() {
    let step = device().create_context(surface(42, 3, 0x5));
    let (calls, result) = drive(&mut { FIRST }, step, &[config(0x77, 1), handle(0), code(0x3009)]);
    assert_eq!(calls.len(), 3);
    assert_eq!(calls[2], NativeCall::GetError);
    let failure = result.unwrap().unwrap_err();
    assert_eq!(
        failure.error,
        Error::ContextCreationFailed(WindowingApiError { code: 0x3009 })
    );
    assert_eq!(failure.context, None);
}

#[test]
fn created_context_that_cannot_be_current_is_handed_back() {
    let step = device().create_context(surface(42, 3, 0x5));
    let mut replies = creation_replies();
    replies.pop();
    replies.push(failed());
    replies.push(code(0x300e));
    let (calls, result) = drive(&mut { LATER }, step, &replies);
    assert_eq!(calls.len(), 11);
    let failure = result.unwrap().unwrap_err();
    assert_eq!(failure.error, Error::MakeCurrentFailed(WindowingApiError { code: 0x300e }));
    let context = failure.context.unwrap();
    assert!(context.is_leaked_by_drop(false));
    assert_eq!(device().context_color_surface(&context), Some(&surface(42, 3, 0x5)));
}

#[test]
fn creation_without_config_is_a_fault() {
    let step = device().create_context(surface(42, 3, 0x5));
    let (calls, result) = drive(&mut { LATER }, step, &[config(0x77, 0)]);
    assert_eq!(calls.len(), 1);
    assert_eq!(result, Err(ReplyCheck::Fault));
}

fn adoption_replies() -> Vec<NativeReply> {
    vec![
        handle(DISPLAY),
        handle(0x10),
        handle(0x201),
        handle(0x301),
        value(42),
        value(2),
        config(0x78, 1),
        value(0),
        value(0),
        value(8),
    ]
}

#[test]
fn current_context_is_taken_over() {
    let (calls, result) =
        drive(&mut { LATER }, Device::from_current_context(), &adoption_replies());
    assert_eq!(
        calls,
        vec![
            NativeCall::GetCurrentDisplay,
            NativeCall::GetCurrentContext,
            NativeCall::QueryDisplayAttrib { display: DISPLAY, attribute: 0x322c },
            NativeCall::QueryDeviceAttrib { device: 0x201, attribute: 0x33a1 },
            query(0x10, CONFIG_ID),
            query(0x10, CONTEXT_CLIENT_VERSION),
            choose_by_id(42),
            config_attrib(0x78, ALPHA_SIZE),
            config_attrib(0x78, DEPTH_SIZE),
            config_attrib(0x78, STENCIL_SIZE),
        ]
    );
    assert_eq!(DEVICE_EXT, 0x322c);
    assert_eq!(D3D11_DEVICE_ANGLE, 0x33a1);
    let (device, context) = result.unwrap().unwrap();
    assert_eq!(
        device,
        Device {
            egl_display: DISPLAY,
            egl_device: 0x201,
            d3d11_device: 0x301,
            d3d_driver_type: 0,
            surface_bindings: SurfaceBindings::Unbound,
        }
    );
    assert!(device.surface_bindings.is_empty());
    assert_eq!(
        context.native_context,
        NativeContext::Borrowed(UnsafeEGLContextRef { egl_context: 0x10 })
    );
    assert_eq!(context.color_surface, ColorSurface::External);
    assert_eq!(
        device.context_gl_info(&context).attributes,
        Some(ContextAttributes {
            flags: ContextAttributeFlags { bits: 4 },
            flavor: flavor(GLApi::GLES, 2, 0),
        })
    );
}

#[test]
fn first_taken_over_context_loads_gl() {
    let mut replies = adoption_replies();
    replies.insert(4, failed());
    let (calls, result) = drive(&mut { FIRST }, Device::from_current_context(), &replies);
    assert_eq!(calls[4], NativeCall::LoadGL);
    assert_eq!(calls.len(), 11);
    assert!(result.unwrap().is_ok());
}

#[test]
fn taking_over_faults_without_devices() {
    let mut replies = adoption_replies();
    replies[2] = failed();
    let (calls, result) =
        drive(&mut { LATER }, Device::from_current_context(), &replies[..3]);
    assert_eq!(calls.len(), 3);
    assert_eq!(result, Err(ReplyCheck::Fault));
    for reply in [failed(), handle(0)] {
        let mut replies = adoption_replies();
        replies[3] = reply;
        let (calls, result) =
            drive(&mut { LATER }, Device::from_current_context(), &replies[..4]);
        assert_eq!(calls.len(), 4);
        assert_eq!(result, Err(ReplyCheck::Fault));
    }
}

#[test]
fn taking_over_nothing_is_a_debug_fault() {
    let mut step = Device::from_current_context();
    for _ in 0..3 {
        step = match step {
            Step::Call(_, state) => {
                assert_eq!(state.check(&LATER, &handle(0)), ReplyCheck::DebugFault);
                assert_eq!(state.check(&LATER, &handle(1)), ReplyCheck::Accepted);
                state.step(&mut { LATER }, handle(1))
            }
            Step::Done(_) => panic!("done"),
        };
    }
}

#[test]
fn taken_over_context_refuses_surfaces() {
    let (_, result) = drive(&mut { LATER }, Device::from_current_context(), &adoption_replies());
    let (device, mut context) = result.unwrap().unwrap();
    assert_eq!(device.context_color_surface(&context), None);
    let step = device.replace_context_color_surface(&mut context, surface(42, 2, 0x6));
    assert_eq!(step, Step::Done(Err(Error::ExternalRenderTarget)));
    assert_eq!(context.color_surface, ColorSurface::External);
}

#[test]
fn taken_over_context_is_only_forgotten() {
    let mut context = borrowed(0x10);
    assert_eq!(device().destroy_context(&mut context), Step::Done(Ok(())));
    assert_eq!(context.color_surface, ColorSurface::Nothing);
    assert!(context.native_context.is_destroyed());
    assert!(!context.is_leaked_by_drop(false));
}

#[test]
fn owned_context_is_destroyed() {
    let mut context = owned(0x10, ColorSurface::Managed(surface(42, 3, 0x5)));
    let step = device().destroy_context(&mut context);
    assert_eq!(context.color_surface, ColorSurface::Nothing);
    assert!(!context.native_context.is_destroyed());
    let (calls, result) = drive(&mut context, step, &[failed(), failed(), ok()]);
    assert_eq!(
        calls,
        vec![
            NativeCall::DestroySurface { surface: surface(42, 3, 0x5) },
            bind(NO_SURFACE, NO_CONTEXT),
            NativeCall::DestroyContext { display: DISPLAY, context: 0x10 },
        ]
    );
    assert_eq!(result, Ok(Ok(())));
    assert_eq!(context, owned(0, ColorSurface::Nothing));
}

#[test]
fn owned_context_without_surface_is_destroyed() {
    let mut context = owned(0x10, ColorSurface::Nothing);
    let step = device().destroy_context(&mut context);
    let (calls, result) = drive(&mut context, step, &[ok(), ok()]);
    assert_eq!(calls.len(), 2);
    assert_eq!(result, Ok(Ok(())));
    assert_eq!(context, owned(0, ColorSurface::Nothing));
}

#[test]
fn destroyed_context_is_left_alone() {
    let mut context = owned(0, ColorSurface::Nothing);
    assert_eq!(device().destroy_context(&mut context), Step::Done(Ok(())));
    assert_eq!(context, owned(0, ColorSurface::Nothing));
}

#[test]
fn undeletable_context_is_a_fault() {
    let mut context = owned(0x10, ColorSurface::Nothing);
    let step = device().destroy_context(&mut context);
    let (calls, result) = drive(&mut context, step, &[ok(), failed()]);
    assert_eq!(calls.len(), 2);
    assert_eq!(result, Err(ReplyCheck::Fault));
    assert_eq!(context, owned(0x10, ColorSurface::Nothing));
}

#[test]
fn context_that_goes_away_meanwhile_is_a_fault() {
    let mut context = owned(0x10, ColorSurface::Managed(surface(42, 3, 0x5)));
    let step = device().destroy_context(&mut context);
    let (calls, result) = drive(&mut owned(0, ColorSurface::Nothing), step, &[ok()]);
    assert_eq!(calls.len(), 1);
    assert_eq!(result, Err(ReplyCheck::Fault));
}

#[test]
fn live_context_is_leaked_unless_panicking() {
    let context = owned(0x10, ColorSurface::Nothing);
    assert!(context.is_leaked_by_drop(false));
    assert!(!context.is_leaked_by_drop(true));
    assert!(borrowed(0x10).is_leaked_by_drop(false));
}

#[test]
fn surface_is_replaced() {
    let mut context = owned(0x10, ColorSurface::Managed(surface(42, 3, 0x5)));
    let step = device().replace_context_color_surface(&mut context, surface(42, 3, 0x6));
    assert_eq!(context, owned(0x10, ColorSurface::Managed(surface(42, 3, 0x5))));
    let (calls, result) =
        drive(&mut context, step, &[value(42), value(3), handle(0x66), ok()]);
    assert_eq!(
        calls,
        vec![
            query(0x10, CONFIG_ID),
            query(0x10, CONTEXT_CLIENT_VERSION),
            NativeCall::LookupSurface { handle: 0x6 },
            bind(0x66, 0x10),
        ]
    );
    assert_eq!(result, Ok(Ok(Some(surface(42, 3, 0x5)))));
    assert_eq!(context, owned(0x10, ColorSurface::Managed(surface(42, 3, 0x6))));
}

#[test]
fn surface_is_replaced_and_back() {
    let replies = [value(42), value(3), handle(0x66), ok()];
    let mut context = owned(0x10, ColorSurface::Managed(surface(42, 3, 0x5)));
    let step = device().replace_context_color_surface(&mut context, surface(42, 3, 0x6));
    let (_, result) = drive(&mut context, step, &replies);
    let old_surface = result.unwrap().unwrap().unwrap();
    let step = device().replace_context_color_surface(&mut context, old_surface);
    let (_, result) = drive(&mut context, step, &replies);
    assert_eq!(result, Ok(Ok(Some(surface(42, 3, 0x6)))));
    assert_eq!(context, owned(0x10, ColorSurface::Managed(surface(42, 3, 0x5))));
}

#[test]
fn first_surface_replaces_nothing() {
    let mut context = owned(0x10, ColorSurface::Nothing);
    let step = device().replace_context_color_surface(&mut context, surface(42, 3, 0x6));
    let (_, result) = drive(&mut context, step, &[value(42), value(3), handle(0x66), ok()]);
    assert_eq!(result, Ok(Ok(None)));
    assert_eq!(context, owned(0x10, ColorSurface::Managed(surface(42, 3, 0x6))));
}

#[test]
fn unfit_surface_is_refused() {
    for replies in [[value(41), value(3)], [value(42), value(2)]] {
        let mut context = owned(0x10, ColorSurface::Managed(surface(42, 3, 0x5)));
        let step = device().replace_context_color_surface(&mut context, surface(42, 3, 0x6));
        let (calls, result) = drive(&mut context, step, &replies);
        assert_eq!(calls.len(), 2);
        assert_eq!(result, Ok(Err(Error::IncompatibleContextDescriptor)));
        assert_eq!(context, owned(0x10, ColorSurface::Managed(surface(42, 3, 0x5))));
    }
}

#[test]
fn surface_stays_replaced_where_binding_fails() {
    let mut context = owned(0x10, ColorSurface::Managed(surface(42, 3, 0x5)));
    let step = device().replace_context_color_surface(&mut context, surface(42, 3, 0x6));
    let (_, result) = drive(
        &mut context,
        step,
        &[value(42), value(3), handle(0x66), failed(), code(0x300d)],
    );
    assert_eq!(
        result,
        Ok(Err(Error::MakeCurrentFailed(WindowingApiError { code: 0x300d })))
    );
    assert_eq!(context, owned(0x10, ColorSurface::Managed(surface(42, 3, 0x6))));
}

#[test]
fn native_contexts_know_their_handles() {
    let mut created = OwnedEGLContext { egl_context: 0x10 };
    assert_eq!(created.egl_context(), 0x10);
    assert!(!created.is_destroyed());
    assert!(matches!(created.destroy(DISPLAY), Step::Call(_, _)));
    assert_eq!(created.egl_context(), 0x10);
    let mut taken = UnsafeEGLContextRef { egl_context: 0x11 };
    assert_eq!(taken.egl_context(), 0x11);
    assert!(!taken.is_destroyed());
    assert_eq!(taken.destroy(DISPLAY), Step::Done(()));
    assert!(taken.is_destroyed());
    assert_eq!(NativeContext::Owned(created).egl_context(), 0x10);
}

#[test]
fn default_framebuffer_is_drawn_to() {
    let context = owned(0x10, ColorSurface::Managed(surface(42, 3, 0x5)));
    assert_eq!(device().context_surface_framebuffer_object(&context), Ok(0));
    let context = owned(0x10, ColorSurface::Nothing);
    assert_eq!(device().context_surface_framebuffer_object(&context), Ok(0));
    assert_eq!(
        device().context_surface_framebuffer_object(&borrowed(0x10)),
        Err(Error::ExternalRenderTarget)
    );
}

#[test]
fn described_version_is_kept() {
    let found = ContextDescriptor::for_context(42, 255);
    assert_eq!(found.flavor.version, GLVersion { major: 255, minor: 0 });
    assert!(found.is_compatible_with(&descriptor(42, 255)));
    assert!(!found.is_compatible_with(&descriptor(42, 254)));
    assert!(!found.is_compatible_with(&descriptor(41, 255)));
}
