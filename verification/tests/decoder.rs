use nvgpu::decoder::GpFifoDecoder;
use nvgpu::error::GpuError;
use nvgpu::fifo_entry::GpFifoEntry;
use nvgpu::text::{push_decimal, push_lower_hex, push_lower_hex_4};

#[test]
fn numbers_are_written_as_the_formatter_writes_them() {
    for value in [0u32, 1, 9, 10, 15, 16, 99, 100, 255, 256, 0xfff, 0x1000, 0xabcdef, u32::MAX] {
        let mut text = String::from(">");
        push_decimal(&mut text, value);
        assert_eq!(text, format!(">{}", value));
        let mut text = String::from(">");
        push_lower_hex(&mut text, value);
        assert_eq!(text, format!(">{:x}", value));
        let mut text = String::from(">");
        push_lower_hex_4(&mut text, value);
        assert_eq!(text, format!(">{:04x}", value));
    }
}

#[test]
fn argument_count_is_one_for_an_inline_call() {
    assert_eq!(GpFifoDecoder::arguments_count(&GpFifoEntry(0x8001_8107)), 1);
    assert_eq!(GpFifoDecoder::arguments_count(&GpFifoEntry(0x8000_8107)), 1);
    assert_eq!(GpFifoDecoder::arguments_count(&GpFifoEntry(0x2003_81c5)), 3);
    assert_eq!(GpFifoDecoder::arguments_count(&GpFifoEntry(0x2000_81c5)), 0);
    assert_eq!(GpFifoDecoder::arguments_count(&GpFifoEntry(0x27ff_81c5)), 0x7ff);
}

#[test]
fn inline_call_is_complete_from_the_start() {
    let mut call = GpFifoDecoder::new(0x8001_8107);
    assert!(call.is_complete());
    assert_eq!(call.argument(0), Some(1));
    assert_eq!(call.argument(1), None);
    assert_eq!(call.push_argument(Some(3)), Err(GpuError::InvalidUsage));
    assert_eq!(call.to_method_call(), "method_107(0x1);\n");
}

#[test]
fn call_takes_as_many_arguments_as_its_header_counts() {
    let mut call = GpFifoDecoder::new(0x2003_81c5);
    assert!(!call.is_complete());
    assert_eq!(call.to_method_call(), "method_1c5(???, ???, ???);\n");
    assert_eq!(call.push_argument(Some(0x40)), Ok(()));
    assert!(!call.is_complete());
    assert_eq!(call.push_argument(None), Ok(()));
    assert_eq!(call.to_method_call(), "method_1c5(0x40, ???, ???);\n");
    assert_eq!(call.push_argument(Some(0)), Ok(()));
    assert!(call.is_complete());
    assert_eq!(call.push_argument(Some(9)), Err(GpuError::InvalidUsage));
    assert_eq!(call.to_method_call(), "method_1c5(0x40, ???, 0x0);\n");
    assert_eq!(call.argument(0), Some(0x40));
    assert_eq!(call.argument(1), None);
    assert_eq!(call.argument(2), Some(0));
}

#[test]
fn call_without_arguments_is_complete() {
    let mut call = GpFifoDecoder::new(0x2000_0040);
    assert!(call.is_complete());
    assert_eq!(call.push_argument(Some(1)), Err(GpuError::InvalidUsage));
    assert_eq!(call.to_method_call(), "method_40();\n");
}

#[test]
fn increasing_method_assigns_to_consecutive_registers() {
    assert_eq!(
        GpFifoDecoder::to_method(0x2003_81c5).unwrap(),
        "// Submission Mode: Increasing, Sub Channel Id: 4, envytools offset: 0x0714\n\
         void method_1c5(uint32_t arg0, uint32_t arg1, uint32_t arg2)\n\
         {\n    REGISTERS[0x1c5] = arg0;\n    REGISTERS[0x1c6] = arg1;\n    REGISTERS[0x1c7] = arg2;\n}\n"
    );
    assert_eq!(
        GpFifoDecoder::to_method(0x0002_0001).unwrap(),
        "// Submission Mode: IncreasingOld, Sub Channel Id: 0, envytools offset: 0x0004\n\
         void method_1(uint32_t arg0, uint32_t arg1)\n\
         {\n    REGISTERS[0x1] = arg0;\n    REGISTERS[0x2] = arg1;\n}\n"
    );
}

#[test]
fn non_increasing_method_assigns_to_one_register() {
    assert_eq!(
        GpFifoDecoder::to_method(0x6002_206d).unwrap(),
        "// Submission Mode: NonIncreasing, Sub Channel Id: 1, envytools offset: 0x01b4\n\
         void method_6d(uint32_t arg0, uint32_t arg1)\n\
         {\n    REGISTERS[0x6d] = arg0;\n    REGISTERS[0x6d] = arg1;\n}\n"
    );
    assert_eq!(
        GpFifoDecoder::to_method(0x4001_0010).unwrap(),
        "// Submission Mode: NonIncreasingOld, Sub Channel Id: 0, envytools offset: 0x0040\n\
         void method_10(uint32_t arg0)\n\
         {\n    REGISTERS[0x10] = arg0;\n}\n"
    );
}

#[test]
fn method_that_increases_once_uses_two_registers() {
    assert_eq!(
        GpFifoDecoder::to_method(0xa003_1fff).unwrap(),
        "// Submission Mode: IncreasingOnce, Sub Channel Id: 0, envytools offset: 0x7ffc\n\
         void method_1fff(uint32_t arg0, uint32_t arg1, uint32_t arg2)\n\
         {\n    REGISTERS[0x1fff] = arg0;\n    REGISTERS[0x2000] = arg1;\n    REGISTERS[0x2000] = arg2;\n}\n"
    );
}

#[test]
fn inline_method_has_one_argument() {
    assert_eq!(
        GpFifoDecoder::to_method(0x8001_8107).unwrap(),
        "// Submission Mode: Inline, Sub Channel Id: 4, envytools offset: 0x041c\n\
         void method_107(uint32_t arg0)\n\
         {\n    REGISTERS[0x107] = arg0;\n}\n"
    );
}

#[test]
fn method_without_arguments_has_an_empty_body() {
    assert_eq!(
        GpFifoDecoder::to_method(0x2000_0000).unwrap(),
        "// Submission Mode: Increasing, Sub Channel Id: 0, envytools offset: 0x0000\n\
         void method_0()\n\
         {\n}\n"
    );
}

#[test]
fn undefined_mode_has_no_text() {
    assert_eq!(GpFifoDecoder::to_method(0xc000_0000), None);
    assert_eq!(GpFifoDecoder::to_method(0xe001_0040), None);
}

#[test]
fn many_parameters_are_numbered_in_decimal() {
    let text = GpFifoDecoder::to_method(0x200c_0100).unwrap();
    assert!(text.contains("uint32_t arg9, uint32_t arg10, uint32_t arg11)\n"));
    assert!(text.contains("    REGISTERS[0x10b] = arg11;\n}\n"));
}
